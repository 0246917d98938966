use std::str::FromStr;

use reverie::{InvalidProjectName, InvalidUsername, ProjectName, Username};

fn text_of(len: usize) -> String {
    "x".repeat(len)
}

#[test]
fn a_username_of_three_characters_is_too_short() {
    let err = Username::parse("abc").unwrap_err();
    assert_eq!(err, InvalidUsername("abc".to_string(), "too_short"));
}

#[test]
fn the_reserved_username_is_valid() {
    let me = Username::parse("me").expect("the reserved username");
    assert_eq!(me.as_str(), "me");
}

#[test]
fn other_short_usernames_are_refused() {
    for s in ["", "m", "Me", "mE", "em", "you", "me ", " me", "abcde"] {
        let err = Username::parse(s).unwrap_err();
        assert_eq!(err.0, s);
        assert_eq!(err.1, "too_short");
    }
}

#[test]
fn usernames_of_six_to_twenty_four_characters_are_valid() {
    for len in 6..=24 {
        let s = text_of(len);
        let name = Username::parse(&s).expect("a valid username");
        assert_eq!(name.as_str(), s);
        assert_eq!(name.to_string(), s);
    }
}

#[test]
fn usernames_over_twenty_four_characters_are_too_long() {
    for len in [25usize, 26, 64, 1000] {
        let s = text_of(len);
        let err = Username::parse(&s).unwrap_err();
        assert_eq!(err, InvalidUsername(s, "too_long"));
    }
}

#[test]
fn username_length_counts_characters_not_bytes() {
    // six characters, eighteen bytes
    let six = "日本語日本語";
    assert_eq!(six.len(), 18);
    assert_eq!(Username::parse(six).expect("six characters").as_str(), six);
    // five characters, fifteen bytes
    let five = "日本語日本";
    assert_eq!(Username::parse(five).unwrap_err().1, "too_short");
    // twenty-four characters of two bytes each
    let twenty_four = "é".repeat(24);
    assert!(Username::parse(&twenty_four).is_ok());
    let twenty_five = "é".repeat(25);
    assert_eq!(Username::parse(&twenty_five).unwrap_err().1, "too_long");
}

#[test]
fn username_from_str_agrees_with_parse() {
    assert_eq!(Username::from_str("alice1").unwrap().as_str(), "alice1");
    assert_eq!("me".parse::<Username>().unwrap().as_str(), "me");
    assert_eq!(
        "abc".parse::<Username>().unwrap_err(),
        InvalidUsername("abc".to_string(), "too_short")
    );
}

#[test]
fn a_cloned_username_is_the_same_name() {
    let name = Username::parse("alice1").unwrap();
    assert_eq!(name.clone().as_str(), "alice1");
}

#[test]
fn project_names_of_three_to_sixty_four_characters_are_valid() {
    for len in 3..=64 {
        let s = text_of(len);
        let name = ProjectName::parse(&s).expect("a valid project name");
        assert_eq!(name.as_str(), s);
        assert_eq!(name.to_string(), s);
    }
    assert_eq!(ProjectName::parse("proj-x").unwrap().as_str(), "proj-x");
}

#[test]
fn short_project_names_are_refused() {
    for s in ["", "a", "ab", "me"] {
        let err = ProjectName::parse(s).unwrap_err();
        assert_eq!(err, InvalidProjectName(s.to_string(), "too_short"));
    }
}

#[test]
fn long_project_names_are_refused() {
    for len in [65usize, 66, 500] {
        let s = text_of(len);
        let err = ProjectName::parse(&s).unwrap_err();
        assert_eq!(err, InvalidProjectName(s, "too_long"));
    }
}

#[test]
fn project_name_length_counts_characters_not_bytes() {
    let three = "日本語";
    assert_eq!(three.len(), 9);
    assert!(ProjectName::parse(three).is_ok());
    assert_eq!(ProjectName::parse("日本").unwrap_err().1, "too_short");
    assert!(ProjectName::parse(&"é".repeat(64)).is_ok());
    assert_eq!(ProjectName::parse(&"é".repeat(65)).unwrap_err().1, "too_long");
}

#[test]
fn project_name_from_str_agrees_with_parse() {
    assert_eq!(ProjectName::from_str("abc").unwrap().as_str(), "abc");
    assert_eq!(
        "ab".parse::<ProjectName>().unwrap_err(),
        InvalidProjectName("ab".to_string(), "too_short")
    );
    assert_eq!(ProjectName::parse("abc").unwrap().clone().as_str(), "abc");
}

#[test]
fn invalid_name_errors_pair_text_and_reason() {
    let e = InvalidUsername::new("bob", "too_short");
    assert_eq!(e.0, "bob");
    assert_eq!(e.1, "too_short");
    let p = InvalidProjectName::new("p", "too_short");
    assert_eq!(p.0, "p");
    assert_eq!(p.1, "too_short");
}

#[test]
fn names_are_compared_by_their_text() {
    let alice = Username::parse("alice1").unwrap();
    assert!(alice.same_as(&Username::parse("alice1").unwrap()));
    assert!(!alice.same_as(&Username::parse("alice2").unwrap()));
    assert!(!alice.same_as(&Username::parse("me").unwrap()));
    let project = ProjectName::parse("proj-x").unwrap();
    assert!(project.same_as(&ProjectName::parse("proj-x").unwrap()));
    assert!(!project.same_as(&ProjectName::parse("proj-y").unwrap()));
}
