use rumble::roster::{Peer, Roster};

#[test]
fn idempotent_roster_insert() {
    let mut roster = Roster::new();
    roster.apply(7, Some(3));
    roster.apply(7, Some(3));
    assert_eq!(roster.peers(), &vec![Peer { session_id: 7, channel_id: 3 }]);
}

#[test]
fn partial_update_preserves_channel() {
    let mut roster = Roster::new();
    roster.apply(7, Some(3));
    roster.apply(7, None);
    assert_eq!(roster.peers(), &vec![Peer { session_id: 7, channel_id: 3 }]);
    assert_eq!(roster.get(7), Some(Peer { session_id: 7, channel_id: 3 }));
}

#[test]
fn new_roster_is_empty() {
    let roster = Roster::new();
    assert_eq!(roster.peers(), &Vec::<Peer>::new());
    assert_eq!(roster.get(0), None);
    assert_eq!(roster.position(0), None);
}

#[test]
fn unknown_session_without_channel_joins_channel_zero() {
    let mut roster = Roster::new();
    roster.apply(4, None);
    assert_eq!(roster.peers(), &vec![Peer { session_id: 4, channel_id: 0 }]);
}

#[test]
fn update_with_channel_overwrites_in_place() {
    let mut roster = Roster::new();
    roster.apply(1, Some(10));
    roster.apply(2, Some(20));
    roster.apply(3, None);
    roster.apply(2, Some(0));
    assert_eq!(
        roster.peers(),
        &vec![
            Peer { session_id: 1, channel_id: 10 },
            Peer { session_id: 2, channel_id: 0 },
            Peer { session_id: 3, channel_id: 0 },
        ]
    );
    assert_eq!(roster.position(3), Some(2));
    assert_eq!(roster.position(9), None);
}

#[test]
fn applying_an_update_twice_changes_nothing_more() {
    let updates = [(1u32, Some(5u32)), (2, None), (1, Some(6)), (2, Some(0)), (3, None)];
    let mut roster = Roster::new();
    for (session, channel) in updates {
        roster.apply(session, channel);
        let once = roster.clone();
        roster.apply(session, channel);
        assert_eq!(roster, once);
    }
}

#[test]
fn roster_made_by_the_rule_is_well_formed() {
    let mut roster = Roster::new();
    assert!(roster.is_wf());
    for (session, channel) in [(3u32, None), (1, Some(2u32)), (3, Some(4)), (2, None), (1, None)] {
        roster.apply(session, channel);
        assert!(roster.is_wf());
    }
    assert_eq!(roster.peers().len(), 3);
}
