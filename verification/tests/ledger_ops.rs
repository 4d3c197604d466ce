use dao_voting_platform::errors::VoteError;
use dao_voting_platform::ledger::Ledger;
use dao_voting_platform::records::Identity;

fn id(n: u128) -> Identity {
    Identity { id: n }
}

fn two_options() -> Vec<String> {
    vec![String::from("A"), String::from("B")]
}

const NOW: i64 = 1_000;
const LATER: i64 = 4_600;

fn fresh_poll(l: &mut Ledger) {
    let r = l.create(
        id(100),
        id(1),
        String::from("T"),
        String::from("D"),
        two_options(),
        LATER,
        NOW,
    );
    assert!(r.is_ok());
}

#[test]
fn create_succeeds_and_initializes() {
    let mut l = Ledger::new();
    let ev = l
        .create(
            id(100),
            id(1),
            String::from("T"),
            String::from("D"),
            two_options(),
            LATER,
            NOW,
        )
        .unwrap();
    assert_eq!(ev.vote, id(100));
    assert_eq!(ev.title, "T");
    assert_eq!(ev.authority, id(1));

    let st = l.stats(id(100)).unwrap();
    assert_eq!(st.total_votes, 0);
    assert_eq!(st.options.len(), 2);
    assert_eq!(st.options[0].label, "A");
    assert_eq!(st.options[0].count, 0);
    assert_eq!(st.options[1].label, "B");
    assert_eq!(st.options[1].count, 0);
}

#[test]
fn create_duplicate_address_rejected() {
    let mut l = Ledger::new();
    fresh_poll(&mut l);
    let r = l.create(
        id(100),
        id(1),
        String::from("T"),
        String::from("D"),
        two_options(),
        LATER,
        NOW,
    );
    assert_eq!(r.unwrap_err(), VoteError::DuplicatePoll);
}

#[test]
fn scenario_full_poll_lifecycle() {
    let mut l = Ledger::new();
    let ev = l
        .create(
            id(100),
            id(1),
            String::from("T"),
            String::from("D"),
            two_options(),
            NOW + 3_600,
            NOW,
        )
        .unwrap();
    assert_eq!(ev.title, "T");
    let st = l.stats(id(100)).unwrap();
    assert_eq!(st.total_votes, 0);
    assert_eq!((st.options[0].count, st.options[1].count), (0, 0));

    let voter1 = id(11);
    let cast1 = l.cast(id(100), voter1, 0, NOW + 1).unwrap();
    assert_eq!(cast1.vote, id(100));
    assert_eq!(cast1.voter, voter1);
    assert_eq!(cast1.option_index, 0);
    let st = l.stats(id(100)).unwrap();
    assert_eq!(st.total_votes, 1);
    assert_eq!((st.options[0].count, st.options[1].count), (1, 0));

    let again = l.cast(id(100), voter1, 0, NOW + 2);
    assert_eq!(again.unwrap_err(), VoteError::AlreadyVoted);
    let st = l.stats(id(100)).unwrap();
    assert_eq!(st.total_votes, 1);
    assert_eq!((st.options[0].count, st.options[1].count), (1, 0));

    let voter2 = id(12);
    l.cast(id(100), voter2, 1, NOW + 3).unwrap();
    let st = l.stats(id(100)).unwrap();
    assert_eq!(st.total_votes, 2);
    assert_eq!((st.options[0].count, st.options[1].count), (1, 1));

    let pct0 = 100.0 * st.options[0].count as f64 / st.total_votes as f64;
    let pct1 = 100.0 * st.options[1].count as f64 / st.total_votes as f64;
    assert_eq!(pct0, 50.0);
    assert_eq!(pct1, 50.0);

    let closed = l.close(id(100), id(1), NOW + 4).unwrap();
    assert_eq!(closed.vote, id(100));
    assert_eq!(closed.total_votes, 2);

    let voter3 = id(13);
    let late = l.cast(id(100), voter3, 0, NOW + 5);
    assert_eq!(late.unwrap_err(), VoteError::VoteEnded);
}

#[test]
fn cast_missing_poll_fails_as_ended() {
    let mut l = Ledger::new();
    let r = l.cast(id(999), id(11), 0, NOW);
    assert_eq!(r.unwrap_err(), VoteError::VoteEnded);
}

#[test]
fn cast_after_deadline_fails_even_while_active() {
    let mut l = Ledger::new();
    fresh_poll(&mut l);
    let r = l.cast(id(100), id(11), 0, LATER + 1);
    assert_eq!(r.unwrap_err(), VoteError::VotingPeriodEnded);
    let r = l.cast(id(100), id(11), 0, LATER);
    assert!(r.is_ok());
}

#[test]
fn cast_out_of_range_option_rejected() {
    let mut l = Ledger::new();
    fresh_poll(&mut l);
    let r = l.cast(id(100), id(11), 2, NOW);
    assert_eq!(r.unwrap_err(), VoteError::InvalidOptionIndex);
}

#[test]
fn same_voter_may_vote_in_two_polls() {
    let mut l = Ledger::new();
    fresh_poll(&mut l);
    l.create(
        id(200),
        id(1),
        String::from("U"),
        String::from("D"),
        two_options(),
        LATER,
        NOW,
    )
    .unwrap();
    l.cast(id(100), id(11), 0, NOW).unwrap();
    l.cast(id(200), id(11), 1, NOW).unwrap();
    assert_eq!(l.stats(id(100)).unwrap().total_votes, 1);
    assert_eq!(l.stats(id(200)).unwrap().total_votes, 1);
}

#[test]
fn close_by_stranger_rejected_and_harmless() {
    let mut l = Ledger::new();
    fresh_poll(&mut l);
    let r = l.close(id(100), id(2), NOW);
    assert_eq!(r.unwrap_err(), VoteError::Unauthorized);
    // the poll is still active: casting works
    assert!(l.cast(id(100), id(11), 0, NOW).is_ok());
}

#[test]
fn close_twice_rejected() {
    let mut l = Ledger::new();
    fresh_poll(&mut l);
    l.close(id(100), id(1), NOW).unwrap();
    let r = l.close(id(100), id(1), NOW + 1);
    assert_eq!(r.unwrap_err(), VoteError::VoteAlreadyEnded);
}

#[test]
fn close_missing_poll_not_found() {
    let mut l = Ledger::new();
    let r = l.close(id(999), id(1), NOW);
    assert_eq!(r.unwrap_err(), VoteError::PollNotFound);
}

#[test]
fn stats_missing_poll_not_found() {
    let l = Ledger::new();
    let r = l.stats(id(999));
    assert_eq!(r.unwrap_err(), VoteError::PollNotFound);
}

#[test]
fn close_freezes_deadline_at_closing_time() {
    let mut l = Ledger::new();
    fresh_poll(&mut l);
    l.close(id(100), id(1), NOW + 7).unwrap();
    let r = l.cast(id(100), id(11), 0, NOW + 8);
    assert_eq!(r.unwrap_err(), VoteError::VoteEnded);
}
