use kik_pok::characters::entities::coin::{CoinNode, CoinPickup, CollectRequest};
use kik_pok::characters::entities::killzone::{KillZoneArea, KillZoneStep, SpawnLookup};
use kik_pok::errors::RustLibError;
use kik_pok::vector::Vector2;

#[test]
fn a_coin_goes_once_the_call_is_on_its_way() {
    let coin = CoinNode::new();
    let sent = CollectRequest::Sent(Ok(()));
    assert_eq!(coin.on_body_entered(&sent, true), CoinPickup::PlayPickup);
    assert_eq!(coin.on_body_entered(&sent, false), CoinPickup::Remove);
}

#[test]
fn a_coin_that_could_not_be_asked_for_stays() {
    let coin = CoinNode::default();
    let failed = CollectRequest::Sent(Err(RustLibError::SpacetimeSDK("down".to_string())));
    assert_eq!(coin.on_body_entered(&failed, true), CoinPickup::Stay);
    assert_eq!(coin.on_body_entered(&failed, false), CoinPickup::Stay);
    assert_eq!(coin.on_body_entered(&CollectRequest::NoSession, true), CoinPickup::Stay);
    assert_eq!(CoinNode::setup_multiplayer(), "SELECT * FROM coin");
}

#[test]
fn a_body_in_the_kill_zone_is_held_until_the_timer_runs_out() {
    let mut zone = KillZoneArea::new();
    assert!(!zone.holds_body);
    assert_eq!(zone.on_body_entered(), KillZoneStep::Hold);
    assert!(zone.holds_body);
    let spawn = SpawnLookup::Answered(Ok(Some(Vector2::new(-15_000, -35_000))));
    assert_eq!(
        zone.on_timer_timeout(&spawn),
        KillZoneStep::Respawn(Some(Vector2::new(-15_000, -35_000)))
    );
    assert!(!zone.holds_body);
    // The timer runs out once more, with nobody held: the zone listens again.
    assert_eq!(zone.on_timer_timeout(&spawn), KillZoneStep::Listen);
    assert!(!zone.holds_body);
}

#[test]
fn a_held_body_without_spawn_point_is_let_go_where_it_is() {
    for lookup in [
        SpawnLookup::Answered(Ok(None)),
        SpawnLookup::Answered(Err(RustLibError::WorldSetup("no scene".to_string()))),
    ] {
        let mut zone = KillZoneArea::default();
        zone.on_body_entered();
        assert_eq!(zone.on_timer_timeout(&lookup), KillZoneStep::Respawn(None));
        assert!(!zone.holds_body);
    }
}

#[test]
fn a_held_body_is_kept_while_there_is_no_session() {
    let mut zone = KillZoneArea::new();
    zone.on_body_entered();
    assert_eq!(zone.on_timer_timeout(&SpawnLookup::NoSession), KillZoneStep::Release);
    assert!(zone.holds_body);
}
