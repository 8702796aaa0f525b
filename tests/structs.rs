use learnrust::structs::{area, area_str, build_user, Rectangle};

#[test]
fn build_user_sets_fields() {
    let u = build_user(String::from("anotheremail@example.com"), String::from("someusername123"));
    assert!(u.active);
    assert_eq!(u.email, "anotheremail@example.com");
    assert_eq!(u.username, "someusername123");
    assert_eq!(u.sign_in_count, 3);
}

#[test]
fn areas_agree() {
    let rect1 = Rectangle { width: 30, length: 50 };
    assert_eq!(area((30, 50)), 1500);
    assert_eq!(area_str(&rect1), 1500);
    assert_eq!(rect1.area(), 1500);
    assert_eq!(rect1.width(), 30);
    assert_eq!(Rectangle::square(5).area(), 25);
}

#[test]
fn can_hold_either_way_round() {
    let rect1 = Rectangle { width: 30, length: 50 };
    let rect2 = Rectangle { width: 40, length: 20 };
    assert!(rect1.can_hold(&rect2));
    assert!(!rect2.can_hold(&rect1));
    assert!(rect1.can_hold(&rect1));
    assert!(!Rectangle::square(10).can_hold(&Rectangle { width: 11, length: 1 }));
}
