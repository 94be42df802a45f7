use poe2_weapon::flow::{
    after_failed_attempt, listen_keyboard, watch_clipboard, window_position, ClipboardError, Data,
    Error, KeyEvent, Preview, WatchAction, WatchEvent, WeaponWithCalculatedRunes,
    CLIPBOARD_ATTEMPTS, FULL_QUALITY, POLL_MILLIS, RETRY_PAUSE_MILLIS, WATCH_MILLIS,
};
use poe2_weapon::parser::{parse, ParseError};
use poe2_weapon::weapon::{
    DamageType, Explicits, FlatDamage, ItemClass, Quality, Range, Weapon, WeaponError, WeaponStats,
};

fn table() -> Vec<WeaponStats> {
    vec![WeaponStats {
        base: "Recurve Bow".to_owned(),
        item_class: "Bows".to_owned(),
        img: "recurve.png".to_owned(),
        damages: vec![FlatDamage {
            damage_type: DamageType::Physical,
            range: Range(15, 31),
        }],
        aps: 110,
    }]
}

fn text(quality: u8) -> String {
    format!(
        "Item Class: Bows\nRarity: Rare\nRecurve Bow\n--------\nQuality: +{quality}% (augmented)\n--------\nItem Level: 53\n--------\n71% increased Physical Damage\n"
    )
}

#[test]
fn control_then_c_is_a_copy() {
    let mut held = false;
    assert!(!listen_keyboard(KeyEvent::ControlLeftPressed, &mut held));
    assert!(held);
    assert!(!listen_keyboard(KeyEvent::Other, &mut held));
    assert!(held);
    assert!(listen_keyboard(KeyEvent::KeyCPressed, &mut held));
    assert!(!held);
    // A second C needs the control key anew.
    assert!(!listen_keyboard(KeyEvent::KeyCPressed, &mut held));
    assert!(!held);
}

#[test]
fn c_after_the_release_of_control_is_no_copy() {
    let mut held = false;
    assert!(!listen_keyboard(KeyEvent::ControlLeftPressed, &mut held));
    assert!(!listen_keyboard(KeyEvent::ControlLeftReleased, &mut held));
    assert!(!held);
    assert!(!listen_keyboard(KeyEvent::KeyCPressed, &mut held));
    assert!(!listen_keyboard(KeyEvent::Other, &mut held));
    assert!(!held);
}

#[test]
fn ten_attempts_at_the_clipboard() {
    let mut attempts = CLIPBOARD_ATTEMPTS;
    let mut failed = 1;
    while let Some(left) = after_failed_attempt(attempts) {
        assert_eq!(attempts - 1, left);
        attempts = left;
        failed += 1;
    }
    assert_eq!(10, failed);
    assert_eq!(None, after_failed_attempt(1));
    assert_eq!(None, after_failed_attempt(0));
    assert_eq!(Some(9), after_failed_attempt(10));
    assert_eq!(3, RETRY_PAUSE_MILLIS);
}

#[test]
fn the_watch_over_the_clipboard() {
    assert_eq!(WatchAction::Look, watch_clipboard(WatchEvent::Elapsed(0)));
    assert_eq!(WatchAction::Look, watch_clipboard(WatchEvent::Elapsed(49)));
    assert_eq!(WatchAction::TakePrevious(50), watch_clipboard(WatchEvent::Elapsed(50)));
    assert_eq!(WatchAction::TakePrevious(50), watch_clipboard(WatchEvent::Elapsed(7000)));
    assert_eq!(
        WatchAction::TakeCurrent,
        watch_clipboard(WatchEvent::Looked { changed: true })
    );
    assert_eq!(
        WatchAction::Sleep(1),
        watch_clipboard(WatchEvent::Looked { changed: false })
    );
    assert_eq!(50, WATCH_MILLIS);
    assert_eq!(1, POLL_MILLIS);
}

#[test]
fn the_window_goes_below_the_mouse() {
    assert_eq!((300, 380), window_position((500, 300)));
    assert_eq!((201, 80), window_position((401, 0)));
    assert_eq!((0, 180), window_position((400, 100)));
    assert_eq!((0, 75), window_position((-30, -5)));
    assert_eq!(
        (i32::MAX as i64 - 200, i32::MAX as i64 + 80),
        window_position((i32::MAX, i32::MAX))
    );
    assert_eq!((0, i32::MIN as i64 + 80), window_position((i32::MIN, i32::MIN)));
}

#[test]
fn a_weapon_below_full_quality_is_shown_at_full_quality_too() {
    let table = table();
    let data = Data::from_clipboard(&text(7), 12, &table).unwrap();
    let weapon = parse(&text(7), &table).unwrap().into_weapon();
    assert_eq!(weapon, data.weapon.weapon);
    assert_eq!(Quality(7), data.weapon.weapon.quality);
    assert_eq!(weapon.dps(&table).unwrap(), data.weapon.dps);
    assert_eq!(
        weapon.with_different_runes(&table).unwrap(),
        data.weapon.dps_with_different_runes
    );
    assert_eq!(12, data.elapsed);
    assert_eq!("recurve.png", data.img);

    let full = data.weapon_q20.unwrap();
    let mut expected = weapon.clone();
    expected.quality = Quality(FULL_QUALITY);
    assert_eq!(expected, full.weapon);
    assert_eq!(expected, weapon.with_quality(Quality(20)));
    assert_eq!(expected.dps(&table).unwrap(), full.dps);
    assert_eq!(
        expected.with_different_runes(&table).unwrap(),
        full.dps_with_different_runes
    );
    assert_eq!(data.weapon.dps.pdps * 120, full.dps.pdps * 107);
}

#[test]
fn a_weapon_of_full_quality_is_shown_once() {
    let table = table();
    let data = Data::from_clipboard(&text(20), 50, &table).unwrap();
    assert_eq!(None, data.weapon_q20);
    assert_eq!(Quality(20), data.weapon.weapon.quality);
    assert_eq!(78, data.weapon.dps_with_different_runes.len());
    assert_eq!(50, data.elapsed);
}

#[test]
fn a_text_that_is_no_weapon_shows_nothing() {
    let table = table();
    assert_eq!(
        Err(Error::Parse(ParseError::UnsupportedWeaponClass("Staves".to_owned()))),
        Data::from_clipboard("Item Class: Staves", 1, &table)
    );
    assert_eq!(
        Err(Error::Parse(ParseError::ItemClassMissing)),
        Data::from_clipboard("fn main() {}", 1, &table)
    );
    assert_eq!(
        Err(Error::Parse(ParseError::UnsupportedItemBase)),
        Data::from_clipboard("Item Class: Bows\nShortbow", 1, &table)
    );
}

#[test]
fn a_weapon_of_an_unknown_base_shows_nothing() {
    let weapon = Weapon {
        base: "Dualstring Bow".to_owned(),
        item_class: ItemClass::Bows,
        quality: Quality(0),
        explicits: Explicits::default(),
        runes: vec![],
    };
    let error = WeaponError::BaseStatsNotFound("Dualstring Bow".to_owned());
    assert_eq!(Err(error.clone()), Data::new(weapon.clone(), 0, &table()));
    assert_eq!(Err(error), WeaponWithCalculatedRunes::new(weapon, &table()));
}

#[test]
fn the_failures_of_the_clipboard_are_told_apart() {
    let first = Error::Clipboard(ClipboardError::CouldNotInitializeClipboardContext(
        "no display".to_owned(),
    ));
    let second = Error::Clipboard(ClipboardError::CouldNotGetClipboardContents(
        "no display".to_owned(),
    ));
    assert_ne!(first, second);
}

#[test]
fn the_plain_window_shows_the_item_and_its_ranking() {
    let table = table();
    let preview = Preview::of(&text(7), &table);
    let item = parse(&text(7), &table).unwrap();
    assert_eq!(Some(Ok(item.clone())), preview.parsed);
    assert_eq!(item.clone().into_weapon(), item.to_weapon());
    assert_eq!(
        Some(item.to_weapon().with_different_runes(&table).unwrap()),
        preview.runes
    );
    assert_eq!(78, preview.runes.unwrap().len());
}

#[test]
fn the_plain_window_shows_why_a_text_is_no_weapon() {
    let table = table();
    assert_eq!(
        Preview {
            parsed: Some(Err(ParseError::ItemClassMissing)),
            runes: None,
        },
        Preview::of("hello", &table)
    );
    assert_eq!(
        Preview {
            parsed: Some(Err(ParseError::ItemClassMissing)),
            runes: None,
        },
        Preview::of(" ", &table)
    );
    assert_eq!(
        Preview {
            parsed: None,
            runes: None,
        },
        Preview::of("", &table)
    );
}
