//! A wager on a price: the player wins the escrow if the oracle's price is
//! above the agreed rate before the deadline, and the owner takes it after.
//!
//! The owner opens the wager and stakes first; one player may join with an
//! equal stake. Until the deadline the player can claim the escrow by showing
//! a price above the rate. From the deadline on the owner can claim it,
//! whether or not anybody joined.

use vstd::prelude::*;
use crate::account::{decode_address, pubkey_from_str, Account, Address, Transfer, Wallet};
use crate::error::ErrorKind;

verus! {

/// The key of the only price feed a win is decided by, in base 58.
pub const BTC_USDC_FEED: &'static str = "HovQMDrbAgAYPCmHVSrezcSmkMtXSSUsLDFANExrZh2J";

/// The key of the authority that has to own that feed's account, in base 58.
pub const BTC_USDC_FEED_OWNER: &'static str = "gSbePebfvPy7tRqimPoVecS2UsBvYv46ynrzWocc92s";

/// The record of a wager.
#[derive(Clone, Copy, Debug, PartialEq, Eq)]
pub struct OracleBetInfo {
    /// Who opened the wager and takes the escrow after the deadline.
    pub owner: Address,
    /// Who joined, if anybody has.
    pub player: Option<Address>,
    /// The stake of each side.
    pub wager: u64,
    /// The first slot in which the player can no longer win.
    pub deadline: u64,
    /// The price that the oracle's price has to exceed for the player to win.
    pub rate: u64,
}

/// Why a wager operation was refused.
#[derive(Clone, Copy, Debug, PartialEq, Eq, Structural)]
pub enum CustomError {
    /// Invalid participant.
    InvalidParticipant,
    /// The deadline was not reached yet.
    DeadlineNotReached,
    /// The game was already joined by a player.
    GameAlreadyJoined,
    /// The deadline was reached.
    DeadlineReached,
    /// No win.
    NoWin,
    /// Invalid price feed.
    InvalidPriceFeed,
    /// Invalid price feed owner.
    InvalidPriceFeedOwner,
    /// Price not available.
    NoPriceAvailable,
}

impl CustomError {
    /// The class of the error.
    pub open spec fn kind_of(self) -> ErrorKind {
        match self {
            CustomError::InvalidParticipant => ErrorKind::Authorization,
            CustomError::DeadlineNotReached => ErrorKind::Timing,
            CustomError::GameAlreadyJoined => ErrorKind::State,
            CustomError::DeadlineReached => ErrorKind::Timing,
            CustomError::NoWin => ErrorKind::State,
            CustomError::InvalidPriceFeed => ErrorKind::Oracle,
            CustomError::InvalidPriceFeedOwner => ErrorKind::Oracle,
            CustomError::NoPriceAvailable => ErrorKind::Oracle,
        }
    }

    /// The class of the error.
    pub fn kind(&self) -> (k: ErrorKind)
        ensures
            k == self.kind_of(),
    {
        match self {
            CustomError::InvalidParticipant => ErrorKind::Authorization,
            CustomError::DeadlineNotReached => ErrorKind::Timing,
            CustomError::GameAlreadyJoined => ErrorKind::State,
            CustomError::DeadlineReached => ErrorKind::Timing,
            CustomError::NoWin => ErrorKind::State,
            CustomError::InvalidPriceFeed => ErrorKind::Oracle,
            CustomError::InvalidPriceFeedOwner => ErrorKind::Oracle,
            CustomError::NoPriceAvailable => ErrorKind::Oracle,
        }
    }
}

/// Ten to the power `n`.
pub open spec fn pow10(n: nat) -> nat
    decreases n,
{
    if n == 0 {
        1
    } else {
        10 * pow10((n - 1) as nat)
    }
}

/// A larger exponent gives a larger power of ten.
pub proof fn lemma_pow10_increases(m: nat, n: nat)
    requires
        m <= n,
    ensures
        1 <= pow10(m) <= pow10(n),
    decreases n,
{
    if m < n {
        lemma_pow10_increases(m, (n - 1) as nat);
    } else if n > 0 {
        lemma_pow10_increases((m - 1) as nat, (n - 1) as nat);
    }
}

/// `value` times ten to the power `expo`, rounded down, for an exponent that
/// is not positive and whose power of ten fits in 64 bits; otherwise `None`.
pub open spec fn scaled(value: u64, expo: i32) -> Option<u64> {
    if expo <= 0 && pow10((-expo) as nat) <= u64::MAX {
        Some((value as int / pow10((-expo) as nat) as int) as u64)
    } else {
        None
    }
}

/// Scales `value` by ten to the power `expo` with whole numbers only.
///
/// The exponent must not be positive: the value is divided by the power of
/// ten, which is built up by checked multiplication. `None` when the exponent
/// is positive or the power of ten does not fit.
pub fn scale_down(value: u64, expo: i32) -> (r: Option<u64>)
    ensures
        r == scaled(value, expo),
{
    if expo > 0 {
        return None;
    }
    let mut divisor: u64 = 1;
    let mut left: i32 = expo;
    while left < 0
        invariant
            expo <= left <= 0,
            divisor == pow10((left - expo) as nat),
        decreases -left,
    {
        match divisor.checked_mul(10) {
            Some(next) => {
                divisor = next;
            },
            None => {
                proof {
                    lemma_pow10_increases((left - expo + 1) as nat, (-expo) as nat);
                }
                return None;
            },
        }
        left = left + 1;
    }
    proof {
        lemma_pow10_increases(0, (-expo) as nat);
    }
    Some(value / divisor)
}

/// A price as the oracle publishes it: `price` times ten to the power `expo`,
/// give or take `conf`.
#[derive(Clone, Copy, Debug, PartialEq, Eq)]
pub struct PriceQuote {
    pub price: i64,
    pub conf: u64,
    pub expo: i32,
}

impl PriceQuote {
    /// The price in whole units, rounded down: defined for a price that is not
    /// negative and an exponent that [`scaled`] accepts.
    pub open spec fn normalized(self) -> Option<u64> {
        if self.price >= 0 {
            scaled(self.price as u64, self.expo)
        } else {
            None
        }
    }

    /// The price in whole units, rounded down, or `None` where it has none.
    pub fn normalize(&self) -> (r: Option<u64>)
        ensures
            r == self.normalized(),
    {
        if self.price < 0 {
            None
        } else {
            scale_down(self.price as u64, self.expo)
        }
    }
}

/// The oracle's account as it was read: its key, the authority that owns it,
/// and the price it carries, if its data could be read as a price.
#[derive(Clone, Copy, Debug, PartialEq, Eq)]
pub struct PriceFeedAccount {
    pub key: Address,
    pub owner: Address,
    pub quote: Option<PriceQuote>,
}

/// The accounts of a wager's opening: the caller, who becomes its owner, and
/// the account that takes the wager record and holds the escrow.
#[derive(Clone, Copy, Debug, PartialEq, Eq)]
pub struct InitCtx {
    pub owner: Wallet,
    pub bet_info: Account<OracleBetInfo>,
}

impl InitCtx {
    /// The accounts after the opening: the record names the caller as owner
    /// and nobody as player, and the deadline lies `delay` slots ahead.
    pub open spec fn opened(self, delay: u64, wager: u64, rate: u64, current_slot: u64) -> InitCtx {
        InitCtx {
            bet_info: Account {
                data: OracleBetInfo {
                    owner: self.owner.key,
                    player: None,
                    wager,
                    deadline: (current_slot + delay) as u64,
                    rate,
                },
                ..self.bet_info
            },
            ..self
        }
    }

    /// The order that moves the owner's stake into the escrow.
    pub open spec fn stake(self, wager: u64) -> Transfer {
        Transfer { from: self.owner.key, to: self.bet_info.key, lamports: wager }
    }
}

/// Opens a wager: writes its record, with the deadline `delay` slots after
/// `current_slot`, and orders the transfer of the owner's stake into the
/// escrow.
///
/// The deadline has to fit in 64 bits. Nothing else can stand in the way.
pub fn init(ctx: &mut InitCtx, delay: u64, wager: u64, rate: u64, current_slot: u64) -> (r: Result<
    Transfer,
    CustomError,
>)
    requires
        current_slot + delay <= u64::MAX,
    ensures
        r == Ok::<Transfer, CustomError>(old(ctx).stake(wager)),
        *final(ctx) == old(ctx).opened(delay, wager, rate, current_slot),
{
    ctx.bet_info.data.owner = ctx.owner.key;
    ctx.bet_info.data.player = None;
    ctx.bet_info.data.deadline = current_slot + delay;
    ctx.bet_info.data.wager = wager;
    ctx.bet_info.data.rate = rate;
    Ok(Transfer { from: ctx.owner.key, to: ctx.bet_info.key, lamports: wager })
}

/// The accounts of a join: the caller, who becomes the player, and the wager.
#[derive(Clone, Copy, Debug, PartialEq, Eq)]
pub struct JoinCtx {
    pub player: Wallet,
    pub bet_info: Account<OracleBetInfo>,
}

impl JoinCtx {
    /// Why a join is refused, or `None` if it goes through: a wager takes one
    /// player and keeps them.
    pub open spec fn refusal(self) -> Option<CustomError> {
        if self.bet_info.data.player is Some {
            Some(CustomError::GameAlreadyJoined)
        } else {
            None
        }
    }

    /// The accounts after a join that went through: the record names the
    /// caller as player.
    pub open spec fn joined(self) -> JoinCtx {
        JoinCtx {
            bet_info: Account {
                data: OracleBetInfo { player: Some(self.player.key), ..self.bet_info.data },
                ..self.bet_info
            },
            ..self
        }
    }

    /// The order that moves the player's stake, equal to the owner's, into
    /// the escrow.
    pub open spec fn stake(self) -> Transfer {
        Transfer {
            from: self.player.key,
            to: self.bet_info.key,
            lamports: self.bet_info.data.wager,
        }
    }
}

/// Enters the caller as the wager's player and orders the transfer of their
/// stake into the escrow.
pub fn join(ctx: &mut JoinCtx) -> (r: Result<Transfer, CustomError>)
    ensures
        r == (match old(ctx).refusal() {
            Some(e) => Err::<Transfer, CustomError>(e),
            None => Ok(old(ctx).stake()),
        }),
        r is Ok ==> *final(ctx) == old(ctx).joined(),
        r is Err ==> *final(ctx) == *old(ctx),
{
    if ctx.bet_info.data.player.is_some() {
        return Err(CustomError::GameAlreadyJoined);
    }
    ctx.bet_info.data.player = Some(ctx.player.key);
    Ok(Transfer { from: ctx.player.key, to: ctx.bet_info.key, lamports: ctx.bet_info.data.wager })
}

/// The accounts of a win: the player who claims, the wager and the price feed.
#[derive(Clone, Copy, Debug, PartialEq, Eq)]
pub struct WinCtx {
    pub player: Wallet,
    pub bet_info: Account<OracleBetInfo>,
    pub price_feed: PriceFeedAccount,
}

impl WinCtx {
    /// Why a win at `current_slot` is refused, or `None` if it goes through,
    /// when the trusted feed is `feed` and its authority `authority`. Where
    /// one of the two is `None`, no account passes for it.
    /// The checks come in this order, and the first that fails decides.
    pub open spec fn refusal(
        self,
        current_slot: u64,
        feed: Option<Address>,
        authority: Option<Address>,
    ) -> Option<CustomError> {
        let bet = self.bet_info.data;
        if bet.player != Some(self.player.key) {
            Some(CustomError::InvalidParticipant)
        } else if current_slot >= bet.deadline {
            Some(CustomError::DeadlineReached)
        } else if feed != Some(self.price_feed.key) {
            Some(CustomError::InvalidPriceFeed)
        } else if authority != Some(self.price_feed.owner) {
            Some(CustomError::InvalidPriceFeedOwner)
        } else {
            match self.price_feed.quote {
                None => Some(CustomError::InvalidPriceFeed),
                Some(quote) => match quote.normalized() {
                    None => Some(CustomError::NoPriceAvailable),
                    Some(price) => if price <= bet.rate {
                        Some(CustomError::NoWin)
                    } else {
                        None
                    },
                },
            }
        }
    }

    /// The accounts after a win: the player has the whole escrow, and the
    /// wager account is empty.
    pub open spec fn won(self) -> WinCtx {
        WinCtx {
            player: Wallet {
                lamports: (self.player.lamports + self.bet_info.lamports) as u64,
                ..self.player
            },
            bet_info: Account { lamports: 0, ..self.bet_info },
            ..self
        }
    }
}

/// Pays the escrow to the player if the price of the given oracle is above
/// the rate: the feed's key has to be `feed` and its owner `authority`.
///
/// The player's balance has to be able to take the escrow.
pub fn win_with(
    ctx: &mut WinCtx,
    current_slot: u64,
    feed: Option<Address>,
    authority: Option<Address>,
) -> (r: Result<(), CustomError>)
    requires
        old(ctx).player.lamports + old(ctx).bet_info.lamports <= u64::MAX,
    ensures
        r == (match old(ctx).refusal(current_slot, feed, authority) {
            Some(e) => Err::<(), CustomError>(e),
            None => Ok(()),
        }),
        r is Ok ==> *final(ctx) == old(ctx).won(),
        r is Err ==> *final(ctx) == *old(ctx),
{
    if ctx.bet_info.data.player != Some(ctx.player.key) {
        return Err(CustomError::InvalidParticipant);
    }
    if current_slot >= ctx.bet_info.data.deadline {
        return Err(CustomError::DeadlineReached);
    }
    if feed != Some(ctx.price_feed.key) {
        return Err(CustomError::InvalidPriceFeed);
    }
    if authority != Some(ctx.price_feed.owner) {
        return Err(CustomError::InvalidPriceFeedOwner);
    }
    let quote: PriceQuote = match ctx.price_feed.quote {
        Some(quote) => quote,
        None => { return Err(CustomError::InvalidPriceFeed); },
    };
    let price: u64 = match quote.normalize() {
        Some(price) => price,
        None => { return Err(CustomError::NoPriceAvailable); },
    };
    if price <= ctx.bet_info.data.rate {
        return Err(CustomError::NoWin);
    }
    ctx.player.lamports = ctx.player.lamports + ctx.bet_info.lamports;
    ctx.bet_info.lamports = 0;
    Ok(())
}

/// Pays the escrow to the player if the price of the trusted oracle is above
/// the rate.
///
/// The trusted oracle is the feed [`BTC_USDC_FEED`] owned by
/// [`BTC_USDC_FEED_OWNER`]; the two keys are read from their base 58 form
/// and the win is decided as [`win_with`] decides it. The player's balance
/// has to be able to take the escrow.
pub fn win(ctx: &mut WinCtx, current_slot: u64) -> (r: Result<(), CustomError>)
    requires
        old(ctx).player.lamports + old(ctx).bet_info.lamports <= u64::MAX,
    ensures
        r == (match old(ctx).refusal(
            current_slot,
            pubkey_from_str(BTC_USDC_FEED@),
            pubkey_from_str(BTC_USDC_FEED_OWNER@),
        ) {
            Some(e) => Err::<(), CustomError>(e),
            None => Ok(()),
        }),
        r is Ok ==> *final(ctx) == old(ctx).won(),
        r is Err ==> *final(ctx) == *old(ctx),
{
    let feed = decode_address(BTC_USDC_FEED);
    let authority = decode_address(BTC_USDC_FEED_OWNER);
    win_with(ctx, current_slot, feed, authority)
}

/// The accounts of a timeout: the caller, who has to be the wager's owner,
/// and the wager.
#[derive(Clone, Copy, Debug, PartialEq, Eq)]
pub struct TimeoutCtx {
    pub owner: Wallet,
    pub bet_info: Account<OracleBetInfo>,
}

impl TimeoutCtx {
    /// Why a timeout at `current_slot` is refused, or `None` if it goes
    /// through. The checks come in this order, and the first that fails
    /// decides. Whether a player joined plays no part.
    pub open spec fn refusal(self, current_slot: u64) -> Option<CustomError> {
        if self.bet_info.data.owner != self.owner.key {
            Some(CustomError::InvalidParticipant)
        } else if current_slot < self.bet_info.data.deadline {
            Some(CustomError::DeadlineNotReached)
        } else {
            None
        }
    }

    /// The accounts after a timeout that went through: the owner has the
    /// whole escrow, and the wager account is empty.
    pub open spec fn timed_out(self) -> TimeoutCtx {
        TimeoutCtx {
            owner: Wallet {
                lamports: (self.owner.lamports + self.bet_info.lamports) as u64,
                ..self.owner
            },
            bet_info: Account { lamports: 0, ..self.bet_info },
        }
    }
}

/// Pays the escrow to the owner once the deadline has come.
///
/// The owner's balance has to be able to take the escrow.
pub fn timeout(ctx: &mut TimeoutCtx, current_slot: u64) -> (r: Result<(), CustomError>)
    requires
        old(ctx).owner.lamports + old(ctx).bet_info.lamports <= u64::MAX,
    ensures
        r == (match old(ctx).refusal(current_slot) {
            Some(e) => Err::<(), CustomError>(e),
            None => Ok(()),
        }),
        r is Ok ==> *final(ctx) == old(ctx).timed_out(),
        r is Err ==> *final(ctx) == *old(ctx),
{
    if ctx.bet_info.data.owner != ctx.owner.key {
        return Err(CustomError::InvalidParticipant);
    }
    if current_slot < ctx.bet_info.data.deadline {
        return Err(CustomError::DeadlineNotReached);
    }
    ctx.owner.lamports = ctx.owner.lamports + ctx.bet_info.lamports;
    ctx.bet_info.lamports = 0;
    Ok(())
}

/// A wager takes one player: a join is refused as a state error when a
/// player is set, and after a join that went through every further join is
/// refused, whoever asks.
pub proof fn lemma_join_once(ctx: JoinCtx, newcomer: Wallet)
    ensures
        ctx.bet_info.data.player is Some <==> ctx.refusal() == Some(
            CustomError::GameAlreadyJoined,
        ),
        ctx.bet_info.data.player is None <==> ctx.refusal() is None,
        CustomError::GameAlreadyJoined.kind_of() == ErrorKind::State,
        ctx.refusal() is None ==> (JoinCtx {
            player: newcomer,
            bet_info: ctx.joined().bet_info,
        }).refusal() == Some(CustomError::GameAlreadyJoined),
{
}

/// A join that goes through names the caller as player, orders a stake equal
/// to the owner's from the caller into the escrow, and leaves the wager's
/// owner, stake, deadline and rate as they were.
pub proof fn lemma_join_matches_stake(ctx: JoinCtx)
    requires
        ctx.refusal() is None,
    ensures
        ctx.joined().bet_info.data.player == Some(ctx.player.key),
        ctx.stake().from == ctx.player.key,
        ctx.stake().to == ctx.bet_info.key,
        ctx.stake().lamports == ctx.bet_info.data.wager,
        ctx.joined().bet_info.data.owner == ctx.bet_info.data.owner,
        ctx.joined().bet_info.data.wager == ctx.bet_info.data.wager,
        ctx.joined().bet_info.data.deadline == ctx.bet_info.data.deadline,
        ctx.joined().bet_info.data.rate == ctx.bet_info.data.rate,
{
}

/// After the owner's and the player's orders are settled the escrow holds
/// both stakes on top of what it held when the wager was opened.
pub proof fn lemma_escrow_holds_both_stakes(
    opening: InitCtx,
    delay: u64,
    wager: u64,
    rate: u64,
    current_slot: u64,
    joining: JoinCtx,
)
    requires
        joining.bet_info.key == opening.bet_info.key,
        joining.bet_info.data == opening.opened(delay, wager, rate, current_slot).bet_info.data,
    ensures
        joining.refusal() is None,
        joining.stake().to == opening.stake(wager).to,
        opening.stake(wager).credited(opening.bet_info.lamports) + joining.stake().lamports
            == opening.bet_info.lamports + 2 * wager,
{
}

/// A wager pays out once: after a win or a timeout the escrow is empty, and
/// a later win or timeout that is not refused moves nothing.
pub proof fn lemma_payout_is_final(claim: WinCtx, expiry: TimeoutCtx, player: Wallet, owner: Wallet)
    ensures
        (WinCtx { player, bet_info: claim.won().bet_info, ..claim }).won().player == player,
        (TimeoutCtx { owner, bet_info: claim.won().bet_info }).timed_out().owner == owner,
        (WinCtx { player, bet_info: expiry.timed_out().bet_info, ..claim }).won().player == player,
        (TimeoutCtx { owner, bet_info: expiry.timed_out().bet_info }).timed_out().owner == owner,
{
}

/// From the deadline on a win is refused whatever the price: as a timing
/// error when the player asks, and as an authorization error when anybody
/// else does.
pub proof fn lemma_win_after_deadline_refused(
    ctx: WinCtx,
    current_slot: u64,
    feed: Option<Address>,
    authority: Option<Address>,
)
    requires
        current_slot >= ctx.bet_info.data.deadline,
    ensures
        ctx.refusal(current_slot, feed, authority) == Some(
            if ctx.bet_info.data.player == Some(ctx.player.key) {
                CustomError::DeadlineReached
            } else {
                CustomError::InvalidParticipant
            },
        ),
        CustomError::DeadlineReached.kind_of() == ErrorKind::Timing,
        CustomError::InvalidParticipant.kind_of() == ErrorKind::Authorization,
{
}

/// Before the deadline, with the trusted feed showing a price in whole
/// units, the player wins exactly when that price is above the rate. A price
/// at or below the rate is refused as a state error. A win pays the whole
/// escrow to the player and leaves the wager account with no lamports.
pub proof fn lemma_win_decided_by_price(
    ctx: WinCtx,
    current_slot: u64,
    feed: Option<Address>,
    authority: Option<Address>,
    price: u64,
)
    requires
        ctx.bet_info.data.player == Some(ctx.player.key),
        current_slot < ctx.bet_info.data.deadline,
        feed == Some(ctx.price_feed.key),
        authority == Some(ctx.price_feed.owner),
        ctx.price_feed.quote matches Some(quote) && quote.normalized() == Some(price),
        ctx.player.lamports + ctx.bet_info.lamports <= u64::MAX,
    ensures
        price <= ctx.bet_info.data.rate ==> ctx.refusal(current_slot, feed, authority) == Some(
            CustomError::NoWin,
        ),
        price > ctx.bet_info.data.rate ==> ctx.refusal(current_slot, feed, authority) is None,
        CustomError::NoWin.kind_of() == ErrorKind::State,
        ctx.won().player.lamports == ctx.player.lamports + ctx.bet_info.lamports,
        ctx.won().bet_info.lamports == 0,
        ctx.won().bet_info.data == ctx.bet_info.data,
{
}

/// A win is refused as an oracle error whenever the player asks before the
/// deadline with a feed that is not the trusted one, is not owned by the
/// trusted authority, or carries no price in whole units.
pub proof fn lemma_win_needs_trusted_price(
    ctx: WinCtx,
    current_slot: u64,
    feed: Option<Address>,
    authority: Option<Address>,
)
    requires
        ctx.bet_info.data.player == Some(ctx.player.key),
        current_slot < ctx.bet_info.data.deadline,
        feed != Some(ctx.price_feed.key) || authority != Some(ctx.price_feed.owner) || (
        ctx.price_feed.quote matches Some(quote) ==> quote.normalized() is None),
    ensures
        ctx.refusal(current_slot, feed, authority) matches Some(e) && e.kind_of()
            == ErrorKind::Oracle,
{
}

/// Before the deadline a timeout is refused, whoever asks. From the deadline
/// on the owner's timeout goes through whether or not a player joined, pays
/// the whole escrow to the owner and leaves the wager account with no
/// lamports; anybody else is refused as not authorized.
pub proof fn lemma_timeout_rule(ctx: TimeoutCtx, current_slot: u64)
    requires
        ctx.owner.lamports + ctx.bet_info.lamports <= u64::MAX,
    ensures
        current_slot < ctx.bet_info.data.deadline ==> ctx.refusal(current_slot) == Some(
            if ctx.bet_info.data.owner == ctx.owner.key {
                CustomError::DeadlineNotReached
            } else {
                CustomError::InvalidParticipant
            },
        ),
        CustomError::DeadlineNotReached.kind_of() == ErrorKind::Timing,
        current_slot >= ctx.bet_info.data.deadline ==> (ctx.refusal(current_slot) is None <==> 
            ctx.bet_info.data.owner == ctx.owner.key),
        current_slot >= ctx.bet_info.data.deadline && ctx.bet_info.data.owner != ctx.owner.key
            ==> ctx.refusal(current_slot) == Some(CustomError::InvalidParticipant),
        ctx.timed_out().owner.lamports == ctx.owner.lamports + ctx.bet_info.lamports,
        ctx.timed_out().bet_info.lamports == 0,
        ctx.timed_out().bet_info.data == ctx.bet_info.data,
{
}

/// The slot of the deadline belongs to the owner: a win in it is refused and
/// the owner's timeout goes through.
pub proof fn lemma_deadline_slot_is_the_owners(
    claim: WinCtx,
    feed: Option<Address>,
    authority: Option<Address>,
    expiry: TimeoutCtx,
)
    requires
        expiry.bet_info.data.owner == expiry.owner.key,
    ensures
        claim.refusal(claim.bet_info.data.deadline, feed, authority) is Some,
        expiry.refusal(expiry.bet_info.data.deadline) is None,
{
}

/// A wager is opened with nobody as player and its deadline `delay` slots
/// after the opening; the owner's stake is ordered from the owner into the
/// escrow.
pub proof fn lemma_opening_terms(
    ctx: InitCtx,
    delay: u64,
    wager: u64,
    rate: u64,
    current_slot: u64,
)
    requires
        current_slot + delay <= u64::MAX,
    ensures
        ctx.opened(delay, wager, rate, current_slot).bet_info.data.player is None,
        ctx.opened(delay, wager, rate, current_slot).bet_info.data.deadline == current_slot
            + delay,
        ctx.opened(delay, wager, rate, current_slot).bet_info.data.owner == ctx.owner.key,
        ctx.stake(wager).from == ctx.owner.key,
        ctx.stake(wager).to == ctx.bet_info.key,
        ctx.stake(wager).lamports == wager,
{
}

} // verus!
