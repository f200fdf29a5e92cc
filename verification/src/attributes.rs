use vstd::prelude::*;
use crate::response::Event;
use crate::utils::{Verdict, VoteOption};
use vstd::string::StringExecFns;

verus! {

/// A key and a value attached to a response for those who index what
/// happens.
#[derive(Clone, Debug, PartialEq, Eq)]
pub struct Attribute {
    pub key: String,
    pub value: String,
}

/// The character of the digit `d`.
pub open spec fn digit(d: nat) -> char {
    if d == 0 {
        '0'
    } else if d == 1 {
        '1'
    } else if d == 2 {
        '2'
    } else if d == 3 {
        '3'
    } else if d == 4 {
        '4'
    } else if d == 5 {
        '5'
    } else if d == 6 {
        '6'
    } else if d == 7 {
        '7'
    } else if d == 8 {
        '8'
    } else {
        '9'
    }
}

/// The number `n` written in decimal digits, without leading zeros.
pub open spec fn digits(n: nat) -> Seq<char>
    decreases n,
{
    if n < 10 {
        seq![digit(n)]
    } else {
        digits(n / 10).push(digit(n % 10))
    }
}

/// The text of a side: `yes` or `no`.
pub open spec fn option_text(v: VoteOption) -> Seq<char> {
    match v {
        VoteOption::Yes => "yes"@,
        VoteOption::No => "no"@,
    }
}

/// The text of a truth value: `true` or `false`.
pub open spec fn bool_text(b: bool) -> Seq<char> {
    if b {
        "true"@
    } else {
        "false"@
    }
}

/// The reason a verdict gives for a rejection; empty for a poll that
/// passed.
pub open spec fn reason_text(v: Verdict) -> Seq<char> {
    match v {
        Verdict::Passed => ""@,
        Verdict::QuorumNotReached => "Quorum not reached"@,
        Verdict::ThresholdNotReached => "Threshold not reached"@,
    }
}

/// The attributes of an event as texts: first the action, then what the
/// action was about.
pub open spec fn attributes_of(event: Event) -> Seq<(Seq<char>, Seq<char>)> {
    match event {
        Event::CreatePoll { creator, poll_id, end_height } => seq![
            ("action"@, "create_poll"@),
            ("creator"@, creator@),
            ("poll_id"@, digits(poll_id as nat)),
            ("end_height"@, digits(end_height as nat)),
        ],
        Event::CastVote { poll_id, my_share, total_amount, voter, vote_option } => seq![
            ("action"@, "cast_vote"@),
            ("poll_id"@, digits(poll_id as nat)),
            ("my_share"@, digits(my_share as nat)),
            ("total_amount"@, digits(total_amount as nat)),
            ("voter"@, voter@),
            ("vote_option"@, option_text(vote_option)),
        ],
        Event::CancelVote { poll_id, amount, voter, vote_option } => seq![
            ("action"@, "cancel_vote"@),
            ("poll_id"@, digits(poll_id as nat)),
            ("amount"@, digits(amount as nat)),
            ("voter"@, voter@),
            ("vote_option"@, option_text(vote_option)),
        ],
        Event::Vote { poll_id, amount, voter, vote_option } => seq![
            ("action"@, "cast_vote"@),
            ("poll_id"@, digits(poll_id as nat)),
            ("amount"@, digits(amount as nat)),
            ("voter"@, voter@),
            ("vote_option"@, option_text(vote_option)),
        ],
        Event::EndPoll { poll_id, verdict } => seq![
            ("action"@, "end_poll"@),
            ("poll_id"@, digits(poll_id as nat)),
            ("rejected_reason"@, reason_text(verdict)),
            ("passed"@, bool_text(verdict == Verdict::Passed)),
        ],
        Event::ExecutePoll { poll_id } => seq![
            ("action"@, "execute_poll"@),
            ("poll_id"@, digits(poll_id as nat)),
        ],
        Event::ExecutePollMsgs { poll_id } => seq![
            ("action"@, "execute_poll_msgs"@),
            ("poll_id"@, digits(poll_id as nat)),
        ],
        Event::FailedPoll { poll_id } => seq![
            ("action"@, "failed_poll"@),
            ("poll_id"@, digits(poll_id as nat)),
        ],
        Event::SnapshotPoll { poll_id, staked_amount } => seq![
            ("action"@, "snapshot_poll"@),
            ("poll_id"@, digits(poll_id as nat)),
            ("staked_amount"@, digits(staked_amount as nat)),
        ],
        Event::UpdateConfig => seq![("action"@, "update_config"@)],
        Event::Delegate { from, to } => seq![
            ("action"@, "delegate"@),
            ("from"@, from@),
            ("to"@, to@),
        ],
        Event::Undelegate { from, to } => seq![
            ("action"@, "undelegate"@),
            ("from"@, from@),
            ("to"@, to@),
        ],
        Event::Mint { to, amount } => seq![
            ("action"@, "mint"@),
            ("to"@, to@),
            ("amount"@, digits(amount as nat)),
        ],
        Event::Exit { from, amount } => seq![
            ("action"@, "exit"@),
            ("from"@, from@),
            ("amount"@, digits(amount as nat)),
        ],
        Event::TransferFrom { from, to, by, amount } => seq![
            ("action"@, "transfer_from"@),
            ("from"@, from@),
            ("to"@, to@),
            ("by"@, by@),
            ("amount"@, digits(amount as nat)),
        ],
        Event::MintNft { minter, token_id } => seq![
            ("action"@, "mint"@),
            ("minter"@, minter@),
            ("token_id"@, token_id@),
        ],
        Event::TransferNft { from, to, token_id } => seq![
            ("action"@, "transfer_nft"@),
            ("from"@, from@),
            ("to"@, to@),
            ("token_id"@, token_id@),
        ],
        Event::ExecuteDao { sender, token_id } => seq![
            ("action"@, "execute_dao"@),
            ("sender"@, sender@),
            ("token_id"@, token_id@),
        ],
        Event::Staking { sender, share, amount } => seq![
            ("action"@, "staking"@),
            ("sender"@, sender@),
            ("share"@, digits(share as nat)),
            ("amount"@, digits(amount as nat)),
        ],
        Event::Withdraw { recipient, amount } => seq![
            ("action"@, "withdraw"@),
            ("recipient"@, recipient@),
            ("amount"@, digits(amount as nat)),
        ],
    }
}

/// The texts of a list of attributes.
pub open spec fn attribute_texts(attrs: Seq<Attribute>) -> Seq<(Seq<char>, Seq<char>)> {
    Seq::new(attrs.len(), |i: int| (attrs[i].key@, attrs[i].value@))
}

/// The digit `d` as a text.
fn digit_text(d: u128) -> (s: &'static str)
    requires
        d < 10,
    ensures
        s@ == seq![digit(d as nat)],
{
    proof {
        reveal_strlit("0");
        reveal_strlit("1");
        reveal_strlit("2");
        reveal_strlit("3");
        reveal_strlit("4");
        reveal_strlit("5");
        reveal_strlit("6");
        reveal_strlit("7");
        reveal_strlit("8");
        reveal_strlit("9");
    }
    let s = if d == 0 {
        "0"
    } else if d == 1 {
        "1"
    } else if d == 2 {
        "2"
    } else if d == 3 {
        "3"
    } else if d == 4 {
        "4"
    } else if d == 5 {
        "5"
    } else if d == 6 {
        "6"
    } else if d == 7 {
        "7"
    } else if d == 8 {
        "8"
    } else {
        "9"
    };
    assert(s@ =~= seq![digit(d as nat)]);
    s
}

/// The number `n` in decimal digits.
pub fn number_text(n: u128) -> (s: String)
    ensures
        s@ == digits(n as nat),
    decreases n,
{
    if n < 10 {
        digit_text(n).to_owned()
    } else {
        let mut s = number_text(n / 10);
        s.append(digit_text(n % 10));
        assert(s@ =~= digits(n as nat));
        s
    }
}

/// The text of a side.
pub fn vote_option_text(v: VoteOption) -> (s: &'static str)
    ensures
        s@ == option_text(v),
{
    match v {
        VoteOption::Yes => "yes",
        VoteOption::No => "no",
    }
}

fn pair(key: &str, value: String) -> (a: Attribute)
    ensures
        a.key@ == key@,
        a.value == value,
{
    Attribute { key: key.to_owned(), value }
}

fn text(key: &str, value: &str) -> (a: Attribute)
    ensures
        a.key@ == key@,
        a.value@ == value@,
{
    Attribute { key: key.to_owned(), value: value.to_owned() }
}

fn number(key: &str, value: u128) -> (a: Attribute)
    ensures
        a.key@ == key@,
        a.value@ == digits(value as nat),
{
    Attribute { key: key.to_owned(), value: number_text(value) }
}

impl Event {
    /// The event as attributes: keys and values as texts, the action first.
    pub fn attributes(&self) -> (attrs: Vec<Attribute>)
        ensures
            attribute_texts(attrs@) == attributes_of(*self),
    {
        let mut attrs: Vec<Attribute> = Vec::new();
        match self {
            Event::CreatePoll { creator, poll_id, end_height } => {
                attrs.push(text("action", "create_poll"));
                attrs.push(pair("creator", creator.clone()));
                attrs.push(number("poll_id", *poll_id as u128));
                attrs.push(number("end_height", *end_height as u128));
            },
            Event::CastVote { poll_id, my_share, total_amount, voter, vote_option } => {
                attrs.push(text("action", "cast_vote"));
                attrs.push(number("poll_id", *poll_id as u128));
                attrs.push(number("my_share", *my_share));
                attrs.push(number("total_amount", *total_amount));
                attrs.push(pair("voter", voter.clone()));
                attrs.push(text("vote_option", vote_option_text(*vote_option)));
            },
            Event::CancelVote { poll_id, amount, voter, vote_option } => {
                attrs.push(text("action", "cancel_vote"));
                attrs.push(number("poll_id", *poll_id as u128));
                attrs.push(number("amount", *amount));
                attrs.push(pair("voter", voter.clone()));
                attrs.push(text("vote_option", vote_option_text(*vote_option)));
            },
            Event::Vote { poll_id, amount, voter, vote_option } => {
                attrs.push(text("action", "cast_vote"));
                attrs.push(number("poll_id", *poll_id as u128));
                attrs.push(number("amount", *amount));
                attrs.push(pair("voter", voter.clone()));
                attrs.push(text("vote_option", vote_option_text(*vote_option)));
            },
            Event::EndPoll { poll_id, verdict } => {
                attrs.push(text("action", "end_poll"));
                attrs.push(number("poll_id", *poll_id as u128));
                attrs.push(text("rejected_reason", verdict.rejected_reason()));
                attrs.push(
                    text(
                        "passed",
                        if verdict.passed() {
                            "true"
                        } else {
                            "false"
                        },
                    ),
                );
            },
            Event::ExecutePoll { poll_id } => {
                attrs.push(text("action", "execute_poll"));
                attrs.push(number("poll_id", *poll_id as u128));
            },
            Event::ExecutePollMsgs { poll_id } => {
                attrs.push(text("action", "execute_poll_msgs"));
                attrs.push(number("poll_id", *poll_id as u128));
            },
            Event::FailedPoll { poll_id } => {
                attrs.push(text("action", "failed_poll"));
                attrs.push(number("poll_id", *poll_id as u128));
            },
            Event::SnapshotPoll { poll_id, staked_amount } => {
                attrs.push(text("action", "snapshot_poll"));
                attrs.push(number("poll_id", *poll_id as u128));
                attrs.push(number("staked_amount", *staked_amount));
            },
            Event::UpdateConfig => {
                attrs.push(text("action", "update_config"));
            },
            Event::Delegate { from, to } => {
                attrs.push(text("action", "delegate"));
                attrs.push(pair("from", from.clone()));
                attrs.push(pair("to", to.clone()));
            },
            Event::Undelegate { from, to } => {
                attrs.push(text("action", "undelegate"));
                attrs.push(pair("from", from.clone()));
                attrs.push(pair("to", to.clone()));
            },
            Event::Mint { to, amount } => {
                attrs.push(text("action", "mint"));
                attrs.push(pair("to", to.clone()));
                attrs.push(number("amount", *amount));
            },
            Event::Exit { from, amount } => {
                attrs.push(text("action", "exit"));
                attrs.push(pair("from", from.clone()));
                attrs.push(number("amount", *amount));
            },
            Event::TransferFrom { from, to, by, amount } => {
                attrs.push(text("action", "transfer_from"));
                attrs.push(pair("from", from.clone()));
                attrs.push(pair("to", to.clone()));
                attrs.push(pair("by", by.clone()));
                attrs.push(number("amount", *amount));
            },
            Event::MintNft { minter, token_id } => {
                attrs.push(text("action", "mint"));
                attrs.push(pair("minter", minter.clone()));
                attrs.push(pair("token_id", token_id.clone()));
            },
            Event::TransferNft { from, to, token_id } => {
                attrs.push(text("action", "transfer_nft"));
                attrs.push(pair("from", from.clone()));
                attrs.push(pair("to", to.clone()));
                attrs.push(pair("token_id", token_id.clone()));
            },
            Event::ExecuteDao { sender, token_id } => {
                attrs.push(text("action", "execute_dao"));
                attrs.push(pair("sender", sender.clone()));
                attrs.push(pair("token_id", token_id.clone()));
            },
            Event::Staking { sender, share, amount } => {
                attrs.push(text("action", "staking"));
                attrs.push(pair("sender", sender.clone()));
                attrs.push(number("share", *share));
                attrs.push(number("amount", *amount));
            },
            Event::Withdraw { recipient, amount } => {
                attrs.push(text("action", "withdraw"));
                attrs.push(pair("recipient", recipient.clone()));
                attrs.push(number("amount", *amount));
            },
        }
        assert(attribute_texts(attrs@) =~= attributes_of(*self));
        attrs
    }
}

} // verus!
