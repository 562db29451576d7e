//! The challenge record and the two operations over it.
//!
//! A record is created once, in the `Open` state, and mutated exactly once
//! more: a successful accept sets the acceptor and a 60-second window.
//! Nothing here settles a challenge: the winner and entry-price fields stay
//! absent, and `Completed` is never reached.

use vstd::prelude::*;

use crate::identity::Identity;

verus! {

/// Seconds an accepted challenge stays open: the window is fixed, whatever
/// duration the creator asked for.
pub const ACCEPT_WINDOW_SECONDS: i64 = 60;

/// Lifecycle state of a record. It is stored as a small integer code
/// (see `Status::status_code`): `Open` is 0, `Active` is 1, `Completed` is 2.
/// `Completed` is declared for settlement, which no operation here performs.
#[derive(Clone, Copy, PartialEq, Eq, Structural, Debug)]
pub enum Status {
    Open,
    Active,
    Completed,
}

impl Status {
    /// The integer code a state is stored as.
    pub open spec fn code(self) -> u8 {
        match self {
            Status::Open => 0,
            Status::Active => 1,
            Status::Completed => 2,
        }
    }

    /// Returns the integer code this state is stored as.
    pub fn status_code(self) -> (code: u8)
        ensures
            code == self.code(),
    {
        match self {
            Status::Open => 0,
            Status::Active => 1,
            Status::Completed => 2,
        }
    }

    /// Reads a state back from its stored code; codes above 2 name no state.
    pub fn from_code(code: u8) -> (s: Option<Status>)
        ensures
            match s {
                Some(st) => st.code() == code,
                None => code > 2,
            },
    {
        if code == 0 {
            Some(Status::Open)
        } else if code == 1 {
            Some(Status::Active)
        } else if code == 2 {
            Some(Status::Completed)
        } else {
            None
        }
    }
}

/// Why an operation was refused.
#[derive(Clone, Copy, PartialEq, Eq, Structural, Debug)]
pub enum ErrorCode {
    /// Accept was attempted on a record whose acceptor is already set.
    ChallengeAlreadyAccepted,
    /// Declared for settlement operations; nothing here raises it.
    ChallengeNotActive,
    /// The accepting identity equals the record's creator.
    UnauthorizedUser,
}

/// One persisted challenge record.
#[derive(Clone, Debug)]
pub struct Challenge {
    /// Who opened the challenge; set once at creation, immutable thereafter.
    pub creator: Identity,
    /// The second party; absent until an accept succeeds, then set exactly once.
    pub acceptor: Option<Identity>,
    /// Wager amount; set at creation and never mutated here.
    pub amount: u64,
    /// Name of the instrument wagered on; set at creation, immutable.
    pub asset_pair: String,
    /// Lifecycle state; `Open` at creation.
    pub status: Status,
    /// Chain time (seconds since epoch) of acceptance; absent until then.
    pub start_time: Option<i64>,
    /// Chain time the window closes; set together with `start_time`.
    pub end_time: Option<i64>,
    /// Price snapshot for the creator; declared for settlement, never written.
    pub creator_entry_price: Option<u64>,
    /// Price snapshot for the acceptor; declared for settlement, never written.
    pub acceptor_entry_price: Option<u64>,
    /// The settled winner; declared for settlement, never written.
    pub winner: Option<Identity>,
}

/// How `create_challenge` initializes a record for `creator`: the wager as
/// given, the `Open` state, and every other field absent.
pub open spec fn freshly_created(
    c: Challenge,
    creator: Identity,
    amount: u64,
    asset_pair: Seq<char>,
) -> bool {
    &&& c.creator == creator
    &&& c.acceptor is None
    &&& c.amount == amount
    &&& c.asset_pair@ == asset_pair
    &&& c.status is Open
    &&& c.start_time is None
    &&& c.end_time is None
    &&& c.creator_entry_price is None
    &&& c.acceptor_entry_price is None
    &&& c.winner is None
}

/// What holds of every record the two operations can produce: the settlement
/// fields are untouched, `Completed` is unreachable, `Open` means nobody has
/// accepted, the acceptor is never the creator, the two window timestamps
/// come and go together, and the window is exactly `ACCEPT_WINDOW_SECONDS`.
pub open spec fn reachable(c: Challenge) -> bool {
    &&& c.winner is None
    &&& c.creator_entry_price is None
    &&& c.acceptor_entry_price is None
    &&& c.status !is Completed
    &&& (c.status is Open <==> c.acceptor is None)
    &&& (c.acceptor matches Some(a) ==> a != c.creator)
    &&& (c.start_time is Some <==> c.status is Active)
    &&& (c.start_time is Some <==> c.end_time is Some)
    &&& (c.start_time matches Some(s) ==> {
        &&& s + ACCEPT_WINDOW_SECONDS <= i64::MAX
        &&& c.end_time matches Some(e) && e == s + ACCEPT_WINDOW_SECONDS
    })
}

/// Both guards of `accept_challenge` pass: nobody has accepted yet, and the
/// accepting identity is not the creator.
pub open spec fn can_accept(c: Challenge, who: Identity) -> bool {
    c.acceptor is None && who != c.creator
}

/// Which error a refused accept reports. The acceptor guard is checked
/// first, so a record already accepted reports `ChallengeAlreadyAccepted`
/// even when the asker is the creator.
pub open spec fn accept_error(c: Challenge, who: Identity) -> ErrorCode {
    if c.acceptor is Some {
        ErrorCode::ChallengeAlreadyAccepted
    } else {
        ErrorCode::UnauthorizedUser
    }
}

/// The record after a successful accept by `who` at chain time `now`.
pub open spec fn accepted(c: Challenge, who: Identity, now: i64) -> Challenge {
    Challenge {
        acceptor: Some(who),
        status: Status::Active,
        start_time: Some(now),
        end_time: Some((now + ACCEPT_WINDOW_SECONDS) as i64),
        ..c
    }
}

/// Opens a new challenge record for `creator`.
///
/// `duration_seconds` is accepted for interface compatibility but neither
/// persisted nor used: the accept step runs a window of exactly
/// `ACCEPT_WINDOW_SECONDS`, whatever this value is.
#[allow(unused_variables)]
pub fn create_challenge(
    creator: Identity,
    amount: u64,
    asset_pair: String,
    duration_seconds: u64,
) -> (c: Challenge)
    ensures
        freshly_created(c, creator, amount, asset_pair@),
        reachable(c),
{
    Challenge {
        creator,
        acceptor: None,
        amount,
        asset_pair,
        status: Status::Open,
        start_time: None,
        end_time: None,
        creator_entry_price: None,
        acceptor_entry_price: None,
        winner: None,
    }
}

/// Accepts a challenge on behalf of `acceptor` at chain time `now`.
///
/// Refused, leaving the record unchanged, when the record already has an
/// acceptor (`ChallengeAlreadyAccepted`) or when `acceptor` is the record's
/// creator (`UnauthorizedUser`), in that order of checks. Otherwise the
/// record becomes `Active` with `acceptor` set and a window of exactly
/// `ACCEPT_WINDOW_SECONDS` starting at `now`.
pub fn accept_challenge(
    challenge: &mut Challenge,
    acceptor: Identity,
    now: i64,
) -> (r: Result<(), ErrorCode>)
    requires
        now + ACCEPT_WINDOW_SECONDS <= i64::MAX,
    ensures
        can_accept(*old(challenge), acceptor) ==> {
            &&& r is Ok
            &&& *final(challenge) == accepted(*old(challenge), acceptor, now)
        },
        !can_accept(*old(challenge), acceptor) ==> {
            &&& r == Err::<(), ErrorCode>(accept_error(*old(challenge), acceptor))
            &&& *final(challenge) == *old(challenge)
        },
        reachable(*old(challenge)) ==> reachable(*final(challenge)),
{
    if challenge.acceptor.is_some() {
        return Err(ErrorCode::ChallengeAlreadyAccepted);
    }
    if acceptor == challenge.creator {
        return Err(ErrorCode::UnauthorizedUser);
    }
    challenge.acceptor = Some(acceptor);
    challenge.status = Status::Active;
    challenge.start_time = Some(now);
    challenge.end_time = Some(now + ACCEPT_WINDOW_SECONDS);
    Ok(())
}

/// Every freshly created record satisfies `reachable`: it is `Open`, with no
/// acceptor, no window, and no settlement field set.
pub proof fn lemma_create_reachable(
    c: Challenge,
    creator: Identity,
    amount: u64,
    asset_pair: Seq<char>,
)
    requires
        freshly_created(c, creator, amount, asset_pair),
    ensures
        reachable(c),
{
}

/// A successful accept preserves `reachable`. Together with the
/// unchanged-on-error clause of `accept_challenge`, this means no record the
/// two operations produce ever shows a winner, an entry price, or the
/// `Completed` status.
pub proof fn lemma_accept_preserves_reachable(c: Challenge, who: Identity, now: i64)
    requires
        reachable(c),
        can_accept(c, who),
        now + ACCEPT_WINDOW_SECONDS <= i64::MAX,
    ensures
        reachable(accepted(c, who, now)),
        accepted(c, who, now).winner is None,
        accepted(c, who, now).creator_entry_price is None,
        accepted(c, who, now).acceptor_entry_price is None,
        accepted(c, who, now).status !is Completed,
{
}

/// After one successful accept, any further accept is refused with
/// `ChallengeAlreadyAccepted`, whoever asks and at whatever time; the
/// error branch of `accept_challenge` then leaves the record unchanged.
pub proof fn lemma_second_accept_refused(
    c: Challenge,
    first: Identity,
    second: Identity,
    now: i64,
)
    requires
        can_accept(c, first),
    ensures
        !can_accept(accepted(c, first, now), second),
        accept_error(accepted(c, first, now), second) == ErrorCode::ChallengeAlreadyAccepted,
{
}

/// The creator can never accept its own challenge, whatever state the record
/// is in; while nobody has accepted yet, the refusal is reported as
/// `UnauthorizedUser`. (Once an acceptor is set, the acceptor guard fires
/// first, so the creator is then refused with `ChallengeAlreadyAccepted`.)
pub proof fn lemma_self_accept_refused(c: Challenge)
    ensures
        !can_accept(c, c.creator),
        c.acceptor is None ==> accept_error(c, c.creator) == ErrorCode::UnauthorizedUser,
{
}

} // verus!
