use dao_gov::attributes::{number_text, vote_option_text, Attribute};
use dao_gov::response::{Event, Response};
use dao_gov::utils::{Verdict, VoteOption};

fn texts(event: Event) -> Vec<(String, String)> {
    event.attributes().into_iter().map(|a: Attribute| (a.key, a.value)).collect()
}

fn expect(event: Event, pairs: &[(&str, &str)]) {
    let expected: Vec<(String, String)> =
        pairs.iter().map(|(k, v)| (k.to_string(), v.to_string())).collect();
    assert_eq!(texts(event), expected);
}

fn id(x: &str) -> String {
    x.to_string()
}

#[test]
fn numbers_are_written_in_decimal() {
    assert_eq!(number_text(0), "0");
    assert_eq!(number_text(7), "7");
    assert_eq!(number_text(10), "10");
    assert_eq!(number_text(1_234_567_890), "1234567890");
    assert_eq!(number_text(100_000), "100000");
    assert_eq!(number_text(u64::MAX as u128), "18446744073709551615");
    assert_eq!(number_text(u128::MAX), "340282366920938463463374607431768211455");
    for n in [0u128, 9, 19, 90, 99, 101, 1 << 77] {
        assert_eq!(number_text(n), n.to_string());
    }
    assert_eq!(vote_option_text(VoteOption::Yes), "yes");
    assert_eq!(vote_option_text(VoteOption::No), "no");
}

#[test]
fn attributes_of_the_membership_governance() {
    expect(
        Event::CreatePoll { creator: id("A"), poll_id: 3, end_height: 1100 },
        &[("action", "create_poll"), ("creator", "A"), ("poll_id", "3"), ("end_height", "1100")],
    );
    expect(
        Event::CastVote {
            poll_id: 2,
            my_share: 20,
            total_amount: 30,
            voter: id("B"),
            vote_option: VoteOption::Yes,
        },
        &[
            ("action", "cast_vote"),
            ("poll_id", "2"),
            ("my_share", "20"),
            ("total_amount", "30"),
            ("voter", "B"),
            ("vote_option", "yes"),
        ],
    );
    expect(
        Event::CancelVote { poll_id: 2, amount: 10, voter: id("A"), vote_option: VoteOption::No },
        &[
            ("action", "cancel_vote"),
            ("poll_id", "2"),
            ("amount", "10"),
            ("voter", "A"),
            ("vote_option", "no"),
        ],
    );
    expect(
        Event::EndPoll { poll_id: 1, verdict: Verdict::Passed },
        &[("action", "end_poll"), ("poll_id", "1"), ("rejected_reason", ""), ("passed", "true")],
    );
    expect(
        Event::EndPoll { poll_id: 1, verdict: Verdict::QuorumNotReached },
        &[
            ("action", "end_poll"),
            ("poll_id", "1"),
            ("rejected_reason", "Quorum not reached"),
            ("passed", "false"),
        ],
    );
    expect(
        Event::EndPoll { poll_id: 1, verdict: Verdict::ThresholdNotReached },
        &[
            ("action", "end_poll"),
            ("poll_id", "1"),
            ("rejected_reason", "Threshold not reached"),
            ("passed", "false"),
        ],
    );
    expect(Event::UpdateConfig, &[("action", "update_config")]);
    expect(
        Event::Delegate { from: id("A"), to: id("B") },
        &[("action", "delegate"), ("from", "A"), ("to", "B")],
    );
    expect(
        Event::Undelegate { from: id("A"), to: id("B") },
        &[("action", "undelegate"), ("from", "A"), ("to", "B")],
    );
    expect(
        Event::Mint { to: id("1"), amount: 100_000_000 },
        &[("action", "mint"), ("to", "1"), ("amount", "100000000")],
    );
    expect(
        Event::Exit { from: id("A"), amount: 0 },
        &[("action", "exit"), ("from", "A"), ("amount", "0")],
    );
    expect(
        Event::TransferFrom { from: id("A"), to: id("B"), by: id("owner"), amount: 36 },
        &[("action", "transfer_from"), ("from", "A"), ("to", "B"), ("by", "owner"), ("amount", "36")],
    );
}

#[test]
fn attributes_of_the_token_governance() {
    expect(
        Event::Staking { sender: id("U1"), share: 50, amount: 150 },
        &[("action", "staking"), ("sender", "U1"), ("share", "50"), ("amount", "150")],
    );
    expect(
        Event::Withdraw { recipient: id("U1"), amount: 30 },
        &[("action", "withdraw"), ("recipient", "U1"), ("amount", "30")],
    );
    expect(
        Event::Vote { poll_id: 1, amount: 80, voter: id("U2"), vote_option: VoteOption::Yes },
        &[
            ("action", "cast_vote"),
            ("poll_id", "1"),
            ("amount", "80"),
            ("voter", "U2"),
            ("vote_option", "yes"),
        ],
    );
    expect(
        Event::SnapshotPoll { poll_id: 1, staked_amount: 200 },
        &[("action", "snapshot_poll"), ("poll_id", "1"), ("staked_amount", "200")],
    );
    expect(Event::ExecutePoll { poll_id: 12 }, &[("action", "execute_poll"), ("poll_id", "12")]);
    expect(
        Event::ExecutePollMsgs { poll_id: 12 },
        &[("action", "execute_poll_msgs"), ("poll_id", "12")],
    );
    expect(Event::FailedPoll { poll_id: 12 }, &[("action", "failed_poll"), ("poll_id", "12")]);
}

#[test]
fn attributes_of_the_membership_token() {
    expect(
        Event::MintNft { minter: id("admin"), token_id: id("7") },
        &[("action", "mint"), ("minter", "admin"), ("token_id", "7")],
    );
    expect(
        Event::TransferNft { from: id("a"), to: id("b"), token_id: id("7") },
        &[("action", "transfer_nft"), ("from", "a"), ("to", "b"), ("token_id", "7")],
    );
    expect(
        Event::ExecuteDao { sender: id("a"), token_id: id("7") },
        &[("action", "execute_dao"), ("sender", "a"), ("token_id", "7")],
    );
}

#[test]
fn a_response_without_instructions() {
    let resp = Response::of(Event::UpdateConfig);
    assert_eq!(resp.event, Event::UpdateConfig);
    assert!(resp.messages.is_empty());
}
