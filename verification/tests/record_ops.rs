use dao_voting_platform::errors::VoteError;
use dao_voting_platform::ops::cast_vote;
use dao_voting_platform::ops::create_vote;
use dao_voting_platform::ops::end_vote;
use dao_voting_platform::ops::get_vote_stats;
use dao_voting_platform::records::Identity;
use dao_voting_platform::records::Vote;
use dao_voting_platform::records::VoterRecord;
use dao_voting_platform::records::byte_len;

fn id(n: u128) -> Identity {
    Identity { id: n }
}

fn labels(n: usize) -> Vec<String> {
    (0..n).map(|i| format!("option {}", i)).collect()
}

const NOW: i64 = 1_000;
const LATER: i64 = 4_600;

fn make(title: &str, description: &str, options: Vec<String>, end_time: i64) -> Result<Vote, VoteError> {
    create_vote(
        id(100),
        id(1),
        String::from(title),
        String::from(description),
        options,
        end_time,
        NOW,
    )
    .map(|(vote, _)| vote)
}

fn fresh_ballot(voter: Identity) -> VoterRecord {
    VoterRecord { voter, vote: id(100), option_index: 0, has_voted: false, voted_at: 0 }
}

#[test]
fn create_initializes_all_fields() {
    let (vote, ev) = create_vote(
        id(100),
        id(1),
        String::from("T"),
        String::from("D"),
        labels(2),
        LATER,
        NOW,
    )
    .unwrap();
    assert_eq!(vote.authority, id(1));
    assert_eq!(vote.title, "T");
    assert_eq!(vote.description, "D");
    assert_eq!(vote.options.len(), 2);
    assert_eq!(vote.vote_counts, vec![0, 0]);
    assert_eq!(vote.total_votes, 0);
    assert_eq!(vote.created_at, NOW);
    assert_eq!(vote.end_time, LATER);
    assert!(vote.is_active);
    assert_eq!(ev.vote, id(100));
    assert_eq!(ev.title, "T");
    assert_eq!(ev.authority, id(1));
}

#[test]
fn title_length_is_bounded_in_bytes() {
    assert_eq!(make("", "D", labels(2), LATER).unwrap_err(), VoteError::InvalidTitleLength);
    let long = "x".repeat(101);
    assert_eq!(make(&long, "D", labels(2), LATER).unwrap_err(), VoteError::InvalidTitleLength);
    let exact = "x".repeat(100);
    assert!(make(&exact, "D", labels(2), LATER).is_ok());
    // 51 two-byte characters take 102 bytes: over the limit although only
    // 51 characters long
    let wide = "\u{e9}".repeat(51);
    assert_eq!(make(&wide, "D", labels(2), LATER).unwrap_err(), VoteError::InvalidTitleLength);
    let wide_ok = "\u{e9}".repeat(50);
    assert!(make(&wide_ok, "D", labels(2), LATER).is_ok());
}

#[test]
fn description_length_is_bounded() {
    let long = "x".repeat(501);
    assert_eq!(
        make("T", &long, labels(2), LATER).unwrap_err(),
        VoteError::InvalidDescriptionLength
    );
    let exact = "x".repeat(500);
    assert!(make("T", &exact, labels(2), LATER).is_ok());
    assert!(make("T", "", labels(2), LATER).is_ok());
}

#[test]
fn options_count_is_bounded() {
    assert_eq!(make("T", "D", labels(0), LATER).unwrap_err(), VoteError::InvalidOptionsCount);
    assert_eq!(make("T", "D", labels(1), LATER).unwrap_err(), VoteError::InvalidOptionsCount);
    assert!(make("T", "D", labels(2), LATER).is_ok());
    assert!(make("T", "D", labels(10), LATER).is_ok());
    assert_eq!(make("T", "D", labels(11), LATER).unwrap_err(), VoteError::InvalidOptionsCount);
}

#[test]
fn option_label_length_is_bounded() {
    let empty_label = vec![String::from("A"), String::new()];
    assert_eq!(
        make("T", "D", empty_label, LATER).unwrap_err(),
        VoteError::InvalidOptionLength
    );
    let long_label = vec![String::from("A"), "x".repeat(51)];
    assert_eq!(make("T", "D", long_label, LATER).unwrap_err(), VoteError::InvalidOptionLength);
    let exact_label = vec![String::from("A"), "x".repeat(50)];
    assert!(make("T", "D", exact_label, LATER).is_ok());
}

#[test]
fn end_time_must_be_in_the_future() {
    assert_eq!(make("T", "D", labels(2), NOW).unwrap_err(), VoteError::InvalidEndTime);
    assert_eq!(make("T", "D", labels(2), NOW - 1).unwrap_err(), VoteError::InvalidEndTime);
    assert!(make("T", "D", labels(2), NOW + 1).is_ok());
}

#[test]
fn validation_order_title_before_options() {
    // both the title and the option count are bad: the title is reported
    let r = make("", "D", labels(1), LATER);
    assert_eq!(r.unwrap_err(), VoteError::InvalidTitleLength);
}

#[test]
fn cast_updates_tally_and_ballot() {
    let mut vote = make("T", "D", labels(2), LATER).unwrap();
    let mut ballot = fresh_ballot(id(11));
    let ev = cast_vote(&mut vote, &mut ballot, id(100), id(11), 1, NOW + 1).unwrap();
    assert_eq!(ev.vote, id(100));
    assert_eq!(ev.voter, id(11));
    assert_eq!(ev.option_index, 1);
    assert_eq!(vote.vote_counts, vec![0, 1]);
    assert_eq!(vote.total_votes, 1);
    assert!(ballot.has_voted);
    assert_eq!(ballot.voter, id(11));
    assert_eq!(ballot.vote, id(100));
    assert_eq!(ballot.option_index, 1);
    assert_eq!(ballot.voted_at, NOW + 1);
}

#[test]
fn cast_on_used_ballot_rejected() {
    let mut vote = make("T", "D", labels(2), LATER).unwrap();
    let mut ballot = fresh_ballot(id(11));
    cast_vote(&mut vote, &mut ballot, id(100), id(11), 0, NOW).unwrap();
    let r = cast_vote(&mut vote, &mut ballot, id(100), id(11), 1, NOW);
    assert_eq!(r.unwrap_err(), VoteError::AlreadyVoted);
    assert_eq!(vote.vote_counts, vec![1, 0]);
    assert_eq!(vote.total_votes, 1);
}

#[test]
fn cast_on_inactive_poll_rejected() {
    let mut vote = make("T", "D", labels(2), LATER).unwrap();
    end_vote(&mut vote, id(100), id(1), NOW).unwrap();
    let mut ballot = fresh_ballot(id(11));
    let r = cast_vote(&mut vote, &mut ballot, id(100), id(11), 0, NOW);
    assert_eq!(r.unwrap_err(), VoteError::VoteEnded);
    assert!(!ballot.has_voted);
}

#[test]
fn cast_overflow_leaves_records_untouched() {
    let mut vote = make("T", "D", labels(2), LATER).unwrap();
    vote.vote_counts = vec![u32::MAX, 0];
    vote.total_votes = u32::MAX;
    let mut ballot = fresh_ballot(id(11));
    let r = cast_vote(&mut vote, &mut ballot, id(100), id(11), 0, NOW);
    assert_eq!(r.unwrap_err(), VoteError::Overflow);
    assert_eq!(vote.vote_counts, vec![u32::MAX, 0]);
    assert_eq!(vote.total_votes, u32::MAX);
    assert!(!ballot.has_voted);
}

#[test]
fn end_vote_deactivates_and_freezes_deadline() {
    let mut vote = make("T", "D", labels(2), LATER).unwrap();
    let ev = end_vote(&mut vote, id(100), id(1), NOW + 5).unwrap();
    assert_eq!(ev.vote, id(100));
    assert_eq!(ev.total_votes, 0);
    assert!(!vote.is_active);
    assert_eq!(vote.end_time, NOW + 5);
}

#[test]
fn end_vote_unauthorized_changes_nothing() {
    let mut vote = make("T", "D", labels(2), LATER).unwrap();
    let r = end_vote(&mut vote, id(100), id(2), NOW + 5);
    assert_eq!(r.unwrap_err(), VoteError::Unauthorized);
    assert!(vote.is_active);
    assert_eq!(vote.end_time, LATER);
}

#[test]
fn end_vote_twice_rejected() {
    let mut vote = make("T", "D", labels(2), LATER).unwrap();
    end_vote(&mut vote, id(100), id(1), NOW).unwrap();
    let r = end_vote(&mut vote, id(100), id(1), NOW + 1);
    assert_eq!(r.unwrap_err(), VoteError::VoteAlreadyEnded);
}

#[test]
fn stats_projects_labels_and_counts() {
    let mut vote = make("T", "D", vec![String::from("A"), String::from("B")], LATER).unwrap();
    let mut ballot = fresh_ballot(id(11));
    cast_vote(&mut vote, &mut ballot, id(100), id(11), 0, NOW).unwrap();
    let st = get_vote_stats(&vote);
    assert_eq!(st.total_votes, 1);
    assert_eq!(st.options.len(), 2);
    assert_eq!(st.options[0].label, "A");
    assert_eq!(st.options[0].count, 1);
    assert_eq!(st.options[1].label, "B");
    assert_eq!(st.options[1].count, 0);
    let pct0 = 100.0 * st.options[0].count as f64 / st.total_votes as f64;
    assert_eq!(pct0, 100.0);
}

#[test]
fn byte_len_counts_utf8_bytes() {
    assert_eq!(byte_len(&String::from("")), 0);
    assert_eq!(byte_len(&String::from("abc")), 3);
    assert_eq!(byte_len(&String::from("h\u{e9}llo")), 6);
}

#[test]
fn space_matches_the_record_layout() {
    // fixed part 66, plus 4+1 title, 4+1 description, 4 + two labels of
    // 4+1 each, plus 4 + two counters of 4
    let options = vec![String::from("A"), String::from("B")];
    assert_eq!(Vote::space("T", "D", &options), 102);
    assert_eq!(Vote::space("T", "", &options), 101);
}
