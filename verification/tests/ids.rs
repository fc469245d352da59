use steamworks::{AccountId, AppId, GameId, SteamId};

#[test]
fn steamid_test() {
    let steamid = SteamId::from_raw(76561198040894045);
    assert_eq!("STEAM_0:1:40314158", steamid.steamid32());

    let steamid = SteamId::from_raw(76561198174976054);
    assert_eq!("STEAM_0:0:107355163", steamid.steamid32());
}

#[test]
fn steam_id_raw_roundtrip() {
    let id = SteamId::from_raw(76561198040894045);
    assert_eq!(id.raw(), 76561198040894045);
    assert_eq!(id.account_id().raw(), 80628317);
    assert_eq!(AccountId::from_raw(7).raw(), 7);
}

#[test]
fn steam_id_validity() {
    assert!(SteamId::from_raw(0).is_invalid());
    assert!(!SteamId::from_raw(76561198040894045).is_invalid());
}

#[test]
fn game_id_app_id_is_low_bits() {
    let game = GameId::from_raw(0x0123_4567_89ab_cdef);
    assert_eq!(game.raw(), 0x0123_4567_89ab_cdef);
    assert_eq!(game.app_id(), AppId(0xab_cdef));
    assert_eq!(AppId::from(480u32), AppId(480));
}
