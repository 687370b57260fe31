use bob::mutref::{CatMutRefBuilderBorrowTypes, CatMutRefBuilderOwnedTypes};
use bob::owned::{CatOwnedBuilderBorrowTypes, CatOwnedBuilderOwnedTypes};
use bob::{Cat, DefaultBuilder, RandomBuilder};

fn friends_of(cat: &Cat) -> Vec<&str> {
    cat.friends().iter().map(|s| s.as_str()).collect()
}

fn assert_default(cat: &Cat) {
    assert_eq!(cat.name(), "goodkitten");
    assert_eq!(cat.username(), "goodkitten");
    assert_eq!(cat.number(), Some(123));
    assert_eq!(friends_of(cat), vec!["goodkitten1", "goodkitten2", "goodkitten3"]);
}

fn is_random_text(s: &str) -> bool {
    s.len() == 10 && s.chars().all(|c| c.is_ascii_alphanumeric())
}

fn assert_random(cat: &Cat) {
    assert!(is_random_text(cat.name()));
    assert!(is_random_text(cat.username()));
    assert!(cat.number().is_some());
    assert_eq!(cat.friends().len(), 3);
    for f in cat.friends() {
        assert!(is_random_text(f));
    }
}

#[test]
fn fresh_builders_fail_validation() {
    assert!(matches!(
        CatMutRefBuilderOwnedTypes::new().build(),
        Err(bob::mutref::CatBuildError::Generic)
    ));
    assert!(matches!(
        CatMutRefBuilderBorrowTypes::new().build(),
        Err(bob::mutref::CatBuildError::Generic)
    ));
    assert!(matches!(
        CatOwnedBuilderOwnedTypes::new().build(),
        Err(bob::owned::CatBuildError::Generic)
    ));
    assert!(matches!(
        CatOwnedBuilderBorrowTypes::new().build(),
        Err(bob::owned::CatBuildError::Generic)
    ));
}

#[test]
fn missing_username_fails() {
    let mut b = CatMutRefBuilderOwnedTypes::new();
    b.name("tom").number(1).friend("jerry");
    assert!(matches!(b.build(), Err(bob::mutref::CatBuildError::Generic)));
    let r = CatOwnedBuilderBorrowTypes::new().name("tom").build();
    assert!(matches!(r, Err(bob::owned::CatBuildError::Generic)));
}

#[test]
fn missing_name_fails() {
    let mut b = CatMutRefBuilderBorrowTypes::new();
    b.username("tom");
    assert!(matches!(b.build(), Err(bob::mutref::CatBuildError::Generic)));
    let r = CatOwnedBuilderOwnedTypes::new().username("tom").number(5).build();
    assert!(matches!(r, Err(bob::owned::CatBuildError::Generic)));
}

#[test]
fn empty_texts_are_accepted() {
    let mut b1 = CatMutRefBuilderOwnedTypes::new();
    b1.name("").username("");
    let c1 = b1.build().unwrap();
    let mut b2 = CatMutRefBuilderBorrowTypes::new();
    b2.name("").username("");
    let c2 = b2.build().unwrap();
    let c3 = CatOwnedBuilderOwnedTypes::new().name("").username("").build().unwrap();
    let c4 = CatOwnedBuilderBorrowTypes::new().name("").username("").build().unwrap();
    for c in [&c1, &c2, &c3, &c4] {
        assert_eq!(c.name(), "");
        assert_eq!(c.username(), "");
        assert_eq!(c.number(), None);
        assert!(c.friends().is_empty());
    }
}

#[test]
fn username_then_name_order_does_not_matter() {
    let c = CatOwnedBuilderOwnedTypes::new().username("u").name("n").build().unwrap();
    assert_eq!(c.name(), "n");
    assert_eq!(c.username(), "u");
}

#[test]
fn last_name_wins() {
    let mut b1 = CatMutRefBuilderOwnedTypes::new();
    b1.name("first").name("second").username("u");
    assert_eq!(b1.build().unwrap().name(), "second");
    let mut b2 = CatMutRefBuilderBorrowTypes::new();
    b2.name("first").name("second").username("u");
    assert_eq!(b2.build().unwrap().name(), "second");
    let c3 = CatOwnedBuilderOwnedTypes::new().name("first").name("second").username("u");
    assert_eq!(c3.build().unwrap().name(), "second");
    let c4 = CatOwnedBuilderBorrowTypes::new().name("first").name("second").username("u");
    assert_eq!(c4.build().unwrap().name(), "second");
}

#[test]
fn last_username_and_number_win() {
    let c = CatOwnedBuilderBorrowTypes::new()
        .name("n")
        .username("a")
        .username("b")
        .number(-7)
        .number(42)
        .build()
        .unwrap();
    assert_eq!(c.username(), "b");
    assert_eq!(c.number(), Some(42));
}

#[test]
fn friends_keep_order() {
    let list = ["c", "d"];
    let mut b1 = CatMutRefBuilderOwnedTypes::new();
    b1.name("n").username("u").friend("a").friend("b").friends(&list);
    assert_eq!(friends_of(&b1.build().unwrap()), vec!["a", "b", "c", "d"]);
    let mut b2 = CatMutRefBuilderBorrowTypes::new();
    b2.name("n").username("u").friend("a").friend("b").friends(&list);
    assert_eq!(friends_of(&b2.build().unwrap()), vec!["a", "b", "c", "d"]);
    let c3 = CatOwnedBuilderOwnedTypes::new()
        .name("n")
        .username("u")
        .friend("a")
        .friend("b")
        .friends(&list)
        .build()
        .unwrap();
    assert_eq!(friends_of(&c3), vec!["a", "b", "c", "d"]);
    let c4 = CatOwnedBuilderBorrowTypes::new()
        .name("n")
        .username("u")
        .friend("a")
        .friend("b")
        .friends(&list)
        .build()
        .unwrap();
    assert_eq!(friends_of(&c4), vec!["a", "b", "c", "d"]);
}

#[test]
fn duplicate_friends_are_kept() {
    let c = CatOwnedBuilderOwnedTypes::new()
        .name("n")
        .username("u")
        .friend("x")
        .friends(&["x", "x"])
        .build()
        .unwrap();
    assert_eq!(friends_of(&c), vec!["x", "x", "x"]);
}

#[test]
fn four_variants_agree() {
    let list = ["f2", "f3"];
    let mut b1 = CatMutRefBuilderOwnedTypes::new();
    b1.name("cat").username("kitty").number(i64::MIN).friend("f1").friends(&list);
    let c1 = b1.build().unwrap();
    let mut b2 = CatMutRefBuilderBorrowTypes::new();
    b2.name("cat").username("kitty").number(i64::MIN).friend("f1").friends(&list);
    let c2 = b2.build().unwrap();
    let c3 = CatOwnedBuilderOwnedTypes::new()
        .name("cat")
        .username("kitty")
        .number(i64::MIN)
        .friend("f1")
        .friends(&list)
        .build()
        .unwrap();
    let c4 = CatOwnedBuilderBorrowTypes::new()
        .name("cat")
        .username("kitty")
        .number(i64::MIN)
        .friend("f1")
        .friends(&list)
        .build()
        .unwrap();
    assert_eq!(c1, c2);
    assert_eq!(c1, c3);
    assert_eq!(c1, c4);
    assert_eq!(c1.number(), Some(i64::MIN));
    assert_eq!(friends_of(&c1), vec!["f1", "f2", "f3"]);
}

#[test]
fn mutref_builder_can_build_twice() {
    let mut b = CatMutRefBuilderOwnedTypes::new();
    b.name("n").username("u");
    let first = b.build().unwrap();
    b.name("m");
    let second = b.build().unwrap();
    assert_eq!(first.name(), "n");
    assert_eq!(second.name(), "m");
}

#[test]
fn default_build_all_variants() {
    assert_default(&CatMutRefBuilderOwnedTypes::default_build());
    assert_default(&CatMutRefBuilderBorrowTypes::default_build());
    assert_default(&CatOwnedBuilderOwnedTypes::default_build());
    assert_default(&CatOwnedBuilderBorrowTypes::default_build());
}

#[test]
fn random_build_all_variants() {
    assert_random(&CatMutRefBuilderOwnedTypes::random_build());
    assert_random(&CatMutRefBuilderBorrowTypes::random_build());
    assert_random(&CatOwnedBuilderOwnedTypes::random_build());
    assert_random(&CatOwnedBuilderBorrowTypes::random_build());
}

#[test]
fn random_builds_differ() {
    let a = CatOwnedBuilderOwnedTypes::random_build();
    let b = CatOwnedBuilderOwnedTypes::random_build();
    assert_ne!(a.name(), b.name());
    let c = CatMutRefBuilderBorrowTypes::random_build();
    let d = CatMutRefBuilderBorrowTypes::random_build();
    assert_ne!(c.name(), d.name());
}

#[test]
fn record_outlives_borrowed_text() {
    let mut name = String::from("whiskers");
    let username = String::from("whisk");
    let friend = String::from("tom");
    let cat = {
        let mut b = CatMutRefBuilderBorrowTypes::new();
        b.name(&name).username(&username).friend(&friend);
        b.build().unwrap()
    };
    name.push_str("-changed");
    drop(username);
    drop(friend);
    assert_eq!(cat.name(), "whiskers");
    assert_eq!(cat.username(), "whisk");
    assert_eq!(friends_of(&cat), vec!["tom"]);

    let mut text = String::from("felix");
    let cat2 = CatOwnedBuilderBorrowTypes::new()
        .name(&text)
        .username(&text)
        .build()
        .unwrap();
    text.clear();
    assert_eq!(cat2.name(), "felix");
    assert_eq!(cat2.username(), "felix");
}
