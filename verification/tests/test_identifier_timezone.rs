use drive_deposits::identifier::Uuid;
use drive_deposits::timezone::Timezone;

#[test]
fn fresh_identifiers_are_random_and_laid_out_as_version_4() {
    let a = Uuid::new_v4();
    let b = Uuid::new_v4();
    assert_ne!(a, b);
    assert_eq!((a.bits >> 76) & 0xF, 4);
    assert_eq!((a.bits >> 62) & 0x3, 2);
    assert_eq!((b.bits >> 76) & 0xF, 4);
    assert_eq!((b.bits >> 62) & 0x3, 2);
}

#[test]
fn identifier_as_text() {
    let id = Uuid { bits: 0x550e8400_e29b_41d4_a716_446655440000 };
    assert_eq!(id.to_text(), "550e8400-e29b-41d4-a716-446655440000");
    assert_eq!(Uuid::parse("550e8400-e29b-41d4-a716-446655440000"), Some(id));
    assert_eq!(Uuid::parse("not an identifier"), None);
    let fresh = Uuid::new_v4();
    assert_eq!(Uuid::parse(&fresh.to_text()), Some(fresh));
}

#[test]
fn timezone_is_known_by_its_name() {
    let zone = Timezone::parse("America/New_York").expect("a zone");
    assert_eq!(zone.name(), "America/New_York");
    assert!(Timezone::parse("Mars/Olympus_Mons").is_none());
    assert!(Timezone::parse("").is_none());
    assert_eq!(Timezone::utc().name(), "UTC");
    assert_eq!(Timezone::parse("UTC").unwrap().name(), Timezone::utc().name());
}
