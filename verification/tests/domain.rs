use console_player::domain::game::{
    GameCreateError, GameCreateRequest, GameDeleteError, GameDeleteRequest, GameNameEmptyError,
    GamePlatformEmptyError, Image, Name, Platform, Tooltip,
};

#[test]
fn name_is_trimmed() {
    let name = Name::new("  Super Mario Odyssey \n").unwrap();
    assert_eq!(name.to_string(), "Super Mario Odyssey");
    assert_eq!(Name::new("mario").unwrap().to_string(), "mario");
    assert_eq!(Name::new("a b").unwrap().to_string(), "a b");
}

#[test]
fn name_is_trimmed_of_unicode_whitespace() {
    let name = Name::new("\u{2003}\u{00A0}zelda\u{3000}\u{0085}").unwrap();
    assert_eq!(name.to_string(), "zelda");
    // A zero-width space is no whitespace and stays.
    let name = Name::new(" \u{200B}x ").unwrap();
    assert_eq!(name.to_string(), "\u{200B}x");
}

#[test]
fn empty_name_is_rejected() {
    assert_eq!(Name::new(""), Err(GameNameEmptyError));
    assert_eq!(Name::new("   "), Err(GameNameEmptyError));
    assert_eq!(Name::new("\t\r\n\u{2028}"), Err(GameNameEmptyError));
    assert_eq!(GameNameEmptyError.to_string(), "game name cannot be empty");
}

#[test]
fn platform_is_trimmed() {
    let platform = Platform::new("\tNintendo Switch  ").unwrap();
    assert_eq!(platform.to_string(), "Nintendo Switch");
}

#[test]
fn empty_platform_is_rejected() {
    assert_eq!(Platform::new(""), Err(GamePlatformEmptyError));
    assert_eq!(Platform::new(" \n "), Err(GamePlatformEmptyError));
    assert_eq!(GamePlatformEmptyError.to_string(), "game platform cannot be empty");
}

#[test]
fn image_and_tooltip_keep_their_text() {
    assert_eq!(Image::from(String::from(" key ")).to_string(), " key ");
    assert_eq!(Tooltip::from(String::from("")).to_string(), "");
    assert_eq!(Image::from(String::from("a")), Image::from(String::from("a")));
    assert!(Image::from(String::from("a")) < Image::from(String::from("b")));
}

#[test]
fn create_request_hands_back_what_it_was_given() {
    let req = GameCreateRequest::new(
        Name::new("mario").unwrap(),
        Platform::new("Switch").unwrap(),
        Some(Image::from(String::from("large"))),
        None,
        None,
        Some(Tooltip::from(String::from("small tip"))),
    );
    assert_eq!(req.name(), &Name::new(" mario ").unwrap());
    assert_eq!(req.platform().to_string(), "Switch");
    assert_eq!(req.large_image(), Some(&Image::from(String::from("large"))));
    assert_eq!(req.large_tooltip(), None);
    assert_eq!(req.small_image(), None);
    assert_eq!(req.small_tooltip(), Some(&Tooltip::from(String::from("small tip"))));
    assert_eq!(req.clone(), req);
}

#[test]
fn delete_request_names_the_game() {
    let req = GameDeleteRequest::from(Name::new("mario").unwrap());
    assert_eq!(req.name().to_string(), "mario");
}

#[test]
fn repository_error_messages() {
    let duplicate = GameCreateError::Duplicate { game_name: Name::new("mario").unwrap() };
    assert_eq!(duplicate.to_string(), "game with name mario already exists");
    let missing = GameDeleteError::NotFound { game_name: Name::new("zelda").unwrap() };
    assert_eq!(missing.to_string(), "game with name zelda does not exist");
}

#[test]
fn whitespace_is_the_unicode_property() {
    // Every character alone: it is trimmed away exactly if it is one of
    // the twenty-five characters with the property White_Space.
    let mut count = 0;
    for c in '\0'..=char::MAX {
        let n = c as u32;
        let white = matches!(
            n,
            0x09..=0x0D
                | 0x20
                | 0x85
                | 0xA0
                | 0x1680
                | 0x2000..=0x200A
                | 0x2028
                | 0x2029
                | 0x202F
                | 0x205F
                | 0x3000
        );
        let mut text = String::new();
        text.push(c);
        let name = Name::new(&text);
        assert_eq!(name.is_err(), white);
        if white {
            count += 1;
            text.push('x');
            text.push(c);
            assert_eq!(Name::new(&text).unwrap().to_string(), "x");
        } else {
            assert_eq!(name.unwrap().to_string(), text);
        }
    }
    assert_eq!(count, 25);
}
