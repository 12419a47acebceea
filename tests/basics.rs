use rust_basics::{build_user, gives_ownership, value_in_cents, Coin, Rect};

#[test]
fn rect_area_is_product_of_sides() {
    let rect = Rect { width: 30, height: 50 };
    assert_eq!(rect.area(), 1500);
}

#[test]
fn rect_can_hold_smaller_only() {
    let rect = Rect { width: 30, height: 50 };
    let rect1 = Rect { width: 40, height: 60 };
    let rect2 = Rect { width: 20, height: 30 };
    assert!(!rect.can_hold(&rect1));
    assert!(rect.can_hold(&rect2));
    assert!(rect1.can_hold(&rect2));
    assert!(rect.can_hold(&rect));
    assert!(!rect.can_hold(&Rect { width: 31, height: 10 }));
}

#[test]
fn square_has_equal_sides() {
    let sq = Rect::square(10);
    assert_eq!(sq, Rect { width: 10, height: 10 });
    assert_eq!(sq.area(), 100);
}

#[test]
fn build_user_starts_active_without_sign_ins() {
    let user = build_user(
        String::from("jane.doe@example.com"),
        String::from("Jane Doe"),
    );
    assert_eq!(user.email, "jane.doe@example.com");
    assert_eq!(user.username, "Jane Doe");
    assert_eq!(user.sign_in_count, 0);
    assert!(user.active);
}

#[test]
fn gives_ownership_returns_hello() {
    assert_eq!(gives_ownership(), "Hello");
}

#[test]
fn coin_values_in_cents() {
    assert_eq!(value_in_cents(Coin::Penny), 1);
    assert_eq!(value_in_cents(Coin::Nickel), 5);
    assert_eq!(value_in_cents(Coin::Dime), 10);
    assert_eq!(value_in_cents(Coin::Quarter), 25);
}
