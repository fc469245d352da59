use steamworks::networking_types::SendFlags;
use steamworks::{FriendFlags, ItemState, PersonaChange};

#[test]
fn friend_flags_bits() {
    assert_eq!(FriendFlags::NONE().bits(), 0);
    assert_eq!(FriendFlags::BLOCKED().bits(), 0x01);
    assert_eq!(FriendFlags::IMMEDIATE().bits(), 0x04);
    assert_eq!(FriendFlags::ALL().bits(), 0xffff);
    let both = FriendFlags::BLOCKED().union(FriendFlags::IMMEDIATE());
    assert!(both.contains(FriendFlags::BLOCKED()));
    assert!(both.contains(FriendFlags::IMMEDIATE()));
    assert!(!both.contains(FriendFlags::CLAN_MEMBER()));
    assert_eq!(both.difference(FriendFlags::BLOCKED()), FriendFlags::IMMEDIATE());
}

#[test]
fn item_state_flags() {
    assert_eq!(ItemState::all().bits(), 63);
    assert_eq!(ItemState::from_bits(64), None);
    assert_eq!(ItemState::from_bits_truncate(0xff).bits(), 63);
    assert_eq!(ItemState::from_bits_retain(0xff).bits(), 0xff);
    let mut s = ItemState::empty();
    assert!(s.is_empty());
    s.insert(ItemState::SUBSCRIBED());
    s.insert(ItemState::INSTALLED());
    assert_eq!(s.bits(), 1 | 4);
    s.remove(ItemState::SUBSCRIBED());
    assert_eq!(s, ItemState::INSTALLED());
    assert!(s.intersects(ItemState::INSTALLED()));
    assert!(!s.intersects(ItemState::DOWNLOADING()));
}

#[test]
fn send_flags() {
    assert_eq!(SendFlags::UNRELIABLE().bits(), 0);
    assert_eq!(SendFlags::RELIABLE().bits(), 8);
    assert_eq!(SendFlags::RELIABLE_NO_NAGLE().bits(), 8 | 1);
    assert_eq!(SendFlags::all().bits(), 0x3d);
    assert!(SendFlags::from_bits(2).is_none());
    assert!(SendFlags::all().is_all());
}

#[test]
fn persona_change_flags() {
    assert_eq!(PersonaChange::NAME().bits(), 0x0001);
    assert_eq!(PersonaChange::STEAM_LEVEL().bits(), 0x2000);
    let c = PersonaChange::NAME().union(PersonaChange::AVATAR());
    assert_eq!(c.intersection(PersonaChange::AVATAR()), PersonaChange::AVATAR());
}
