//! A crowdfunding campaign that pays out only if its goal is met.
//!
//! Donors pay into the campaign account until the campaign's last slot. From
//! that slot on, the owner may withdraw everything if the goal was reached, and
//! otherwise every donor may reclaim what they gave. Each donor's gifts are
//! counted in a deposit record of their own.

use vstd::prelude::*;
use crate::account::{Account, Address, Transfer, Wallet};
use crate::error::ErrorKind;

verus! {

/// The record of a campaign.
#[derive(Clone, Debug, PartialEq, Eq)]
pub struct CampaignPDA {
    /// The name the campaign is found under.
    pub campaign_name: String,
    /// Who may withdraw once the goal is reached.
    pub campaign_owner: Address,
    /// The last slot in which a donation is accepted.
    pub end_donate_slot: u64,
    /// What has to come together, above the reserve, for the owner to be paid.
    pub goal_in_lamports: u64,
}

impl CampaignPDA {
    /// A campaign that was created has a positive goal.
    pub open spec fn well_formed(self) -> bool {
        self.goal_in_lamports > 0
    }
}

/// The record of what one donor has given to one campaign.
#[derive(Clone, Copy, Debug, PartialEq, Eq)]
pub struct DepositPDA {
    /// Everything the donor gave and has not reclaimed.
    pub total_donated: u64,
}

/// Why a campaign operation was refused.
#[derive(Clone, Copy, Debug, PartialEq, Eq, Structural)]
pub enum CustomError {
    /// The end slot must be greater than the current slot.
    InvalidEndSlot,
    /// Invalid amount, must be greater than 0.
    InvalidAmount,
    /// The timeout slot was reached.
    TimeoutReached,
    /// The timeout slot was not reached.
    TimeoutNotReached,
    /// The goal was not reached.
    GoalNotReached,
    /// The goal was reached.
    GoalReached,
    /// The account balance is less than the rent exemption.
    InvalidBalance,
    /// Overflow detected when adding donation amounts.
    DonationOverflow,
    /// Unauthorized access: only the campaign owner can perform this action.
    UnauthorizedOwner,
    /// No funds available to reclaim.
    NoFundsToReclaim,
    /// Insufficient funds in the campaign account.
    InsufficientCampaignFunds,
    /// Arithmetic overflow occurred during calculation.
    OverflowError,
}

impl CustomError {
    /// The class of the error.
    pub open spec fn kind_of(self) -> ErrorKind {
        match self {
            CustomError::InvalidEndSlot => ErrorKind::Validation,
            CustomError::InvalidAmount => ErrorKind::Validation,
            CustomError::TimeoutReached => ErrorKind::Timing,
            CustomError::TimeoutNotReached => ErrorKind::Timing,
            CustomError::GoalNotReached => ErrorKind::State,
            CustomError::GoalReached => ErrorKind::State,
            CustomError::InvalidBalance => ErrorKind::Validation,
            CustomError::DonationOverflow => ErrorKind::Arithmetic,
            CustomError::UnauthorizedOwner => ErrorKind::Authorization,
            CustomError::NoFundsToReclaim => ErrorKind::State,
            CustomError::InsufficientCampaignFunds => ErrorKind::Validation,
            CustomError::OverflowError => ErrorKind::Arithmetic,
        }
    }

    /// The class of the error.
    pub fn kind(&self) -> (k: ErrorKind)
        ensures
            k == self.kind_of(),
    {
        match self {
            CustomError::InvalidEndSlot => ErrorKind::Validation,
            CustomError::InvalidAmount => ErrorKind::Validation,
            CustomError::TimeoutReached => ErrorKind::Timing,
            CustomError::TimeoutNotReached => ErrorKind::Timing,
            CustomError::GoalNotReached => ErrorKind::State,
            CustomError::GoalReached => ErrorKind::State,
            CustomError::InvalidBalance => ErrorKind::Validation,
            CustomError::DonationOverflow => ErrorKind::Arithmetic,
            CustomError::UnauthorizedOwner => ErrorKind::Authorization,
            CustomError::NoFundsToReclaim => ErrorKind::State,
            CustomError::InsufficientCampaignFunds => ErrorKind::Validation,
            CustomError::OverflowError => ErrorKind::Arithmetic,
        }
    }
}

/// What a campaign holds above the reserve that keeps its record alive.
/// Negative when the balance does not even cover the reserve.
pub open spec fn spendable(balance: u64, rent_exemption: u64) -> int {
    balance - rent_exemption
}

/// The accounts of a campaign's creation: the caller, who becomes its owner,
/// and the account that takes the campaign record.
#[derive(Clone, Debug, PartialEq, Eq)]
pub struct InitializeCtx {
    pub campaign_owner: Wallet,
    pub campaign_pda: Account<CampaignPDA>,
}

impl InitializeCtx {
    /// Why the creation of a campaign at `current_slot` is refused, or `None`
    /// if it goes through: the goal has to be positive and the end has to lie
    /// ahead.
    pub open spec fn refusal(end_donate_slot: u64, goal_in_lamports: u64, current_slot: u64) -> Option<
        CustomError,
    > {
        if goal_in_lamports == 0 {
            Some(CustomError::InvalidAmount)
        } else if current_slot >= end_donate_slot {
            Some(CustomError::InvalidEndSlot)
        } else {
            None
        }
    }

    /// The accounts after a creation that went through: the record holds the
    /// name, the caller as owner, the end and the goal.
    pub open spec fn initialized(
        self,
        campaign_name: String,
        end_donate_slot: u64,
        goal_in_lamports: u64,
    ) -> InitializeCtx {
        InitializeCtx {
            campaign_pda: Account {
                data: CampaignPDA {
                    campaign_name,
                    campaign_owner: self.campaign_owner.key,
                    end_donate_slot,
                    goal_in_lamports,
                },
                ..self.campaign_pda
            },
            ..self
        }
    }
}

/// Creates a campaign: writes its record into the campaign account, with the
/// caller as owner.
///
/// The account comes with the reserve that keeps its record alive already in
/// it; the reserve is what the campaign holds before the first gift.
pub fn initialize(
    ctx: &mut InitializeCtx,
    campaign_name: String,
    end_donate_slot: u64,
    goal_in_lamports: u64,
    current_slot: u64,
) -> (r: Result<(), CustomError>)
    ensures
        r == (match InitializeCtx::refusal(end_donate_slot, goal_in_lamports, current_slot) {
            Some(e) => Err::<(), CustomError>(e),
            None => Ok(()),
        }),
        r is Ok <==> goal_in_lamports > 0 && current_slot < end_donate_slot,
        r is Ok ==> final(ctx).campaign_pda.data.well_formed(),
        r is Ok ==> *final(ctx) == old(ctx).initialized(
            campaign_name,
            end_donate_slot,
            goal_in_lamports,
        ),
        r is Err ==> *final(ctx) == *old(ctx),
{
    if goal_in_lamports == 0 {
        return Err(CustomError::InvalidAmount);
    }
    if current_slot >= end_donate_slot {
        return Err(CustomError::InvalidEndSlot);
    }
    ctx.campaign_pda.data.campaign_name = campaign_name;
    ctx.campaign_pda.data.campaign_owner = ctx.campaign_owner.key;
    ctx.campaign_pda.data.end_donate_slot = end_donate_slot;
    ctx.campaign_pda.data.goal_in_lamports = goal_in_lamports;
    Ok(())
}

/// The accounts of a donation: the donor, the campaign and the donor's
/// deposit record for that campaign.
#[derive(Clone, Debug, PartialEq, Eq)]
pub struct DonateCtx {
    pub donor: Wallet,
    pub campaign_pda: Account<CampaignPDA>,
    pub deposit_pda: Account<DepositPDA>,
}

impl DonateCtx {
    /// Why a donation of `donated_lamports` at `current_slot` is refused, or
    /// `None` if it goes through. The checks come in this order, and the first
    /// that fails decides. The campaign's last slot still takes donations.
    pub open spec fn refusal(self, donated_lamports: u64, current_slot: u64) -> Option<CustomError> {
        if donated_lamports == 0 {
            Some(CustomError::InvalidAmount)
        } else if current_slot > self.campaign_pda.data.end_donate_slot {
            Some(CustomError::TimeoutReached)
        } else if self.deposit_pda.data.total_donated + donated_lamports > u64::MAX {
            Some(CustomError::DonationOverflow)
        } else {
            None
        }
    }

    /// The accounts after a donation that went through: the deposit record
    /// counts the gift. The lamports move when the returned order is settled.
    pub open spec fn donated(self, donated_lamports: u64) -> DonateCtx {
        DonateCtx {
            deposit_pda: Account {
                data: DepositPDA {
                    total_donated: (self.deposit_pda.data.total_donated + donated_lamports) as u64,
                },
                ..self.deposit_pda
            },
            ..self
        }
    }

    /// The order that moves a gift of `donated_lamports` from the donor to
    /// the campaign.
    pub open spec fn payment(self, donated_lamports: u64) -> Transfer {
        Transfer { from: self.donor.key, to: self.campaign_pda.key, lamports: donated_lamports }
    }
}

/// Counts a gift of `donated_lamports` in the donor's deposit record and
/// orders its transfer from the donor to the campaign.
///
/// The count is kept with a checked sum: a gift that would take it past what
/// 64 bits hold is refused. `campaign_name` is the name by which the campaign
/// was found; the accounts in `ctx` are the ones kept under it, and the name
/// plays no further part.
pub fn donate(
    ctx: &mut DonateCtx,
    campaign_name: String,
    donated_lamports: u64,
    current_slot: u64,
) -> (r: Result<Transfer, CustomError>)
    ensures
        r == (match old(ctx).refusal(donated_lamports, current_slot) {
            Some(e) => Err::<Transfer, CustomError>(e),
            None => Ok(old(ctx).payment(donated_lamports)),
        }),
        r is Ok ==> *final(ctx) == old(ctx).donated(donated_lamports),
        r is Err ==> *final(ctx) == *old(ctx),
{
    if donated_lamports == 0 {
        return Err(CustomError::InvalidAmount);
    }
    if current_slot > ctx.campaign_pda.data.end_donate_slot {
        return Err(CustomError::TimeoutReached);
    }
    let new_total: u64 = match ctx.deposit_pda.data.total_donated.checked_add(donated_lamports) {
        Some(sum) => sum,
        None => { return Err(CustomError::DonationOverflow); },
    };
    ctx.deposit_pda.data.total_donated = new_total;
    Ok(Transfer { from: ctx.donor.key, to: ctx.campaign_pda.key, lamports: donated_lamports })
}

/// The accounts of a withdrawal: the caller, who has to be the campaign's
/// owner, and the campaign.
#[derive(Clone, Debug, PartialEq, Eq)]
pub struct WithdrawCtx {
    pub campaign_owner: Wallet,
    pub campaign_pda: Account<CampaignPDA>,
}

impl WithdrawCtx {
    /// Why a withdrawal at `current_slot` is refused, or `None` if it goes
    /// through. The checks come in this order, and the first that fails decides.
    pub open spec fn refusal(self, current_slot: u64, rent_exemption: u64) -> Option<CustomError> {
        let campaign = self.campaign_pda;
        if campaign.data.campaign_owner != self.campaign_owner.key {
            Some(CustomError::UnauthorizedOwner)
        } else if current_slot < campaign.data.end_donate_slot {
            Some(CustomError::TimeoutNotReached)
        } else if campaign.lamports < rent_exemption {
            Some(CustomError::InvalidBalance)
        } else if spendable(campaign.lamports, rent_exemption) < campaign.data.goal_in_lamports {
            Some(CustomError::GoalNotReached)
        } else if self.campaign_owner.lamports + campaign.lamports > u64::MAX {
            Some(CustomError::OverflowError)
        } else {
            None
        }
    }

    /// The accounts after a withdrawal that went through: the owner has all
    /// the campaign held, reserve included, and the campaign holds nothing.
    pub open spec fn withdrawn(self) -> WithdrawCtx {
        WithdrawCtx {
            campaign_owner: Wallet {
                lamports: (self.campaign_owner.lamports + self.campaign_pda.lamports) as u64,
                ..self.campaign_owner
            },
            campaign_pda: Account { lamports: 0, ..self.campaign_pda },
        }
    }
}

/// Pays the whole campaign balance to its owner once the campaign has ended
/// with its goal reached.
///
/// `rent_exemption` is the reserve the campaign record has to keep; only what
/// the campaign holds above it counts towards the goal. The payout takes the
/// reserve along and leaves the campaign account with no lamports.
/// `campaign_name` is the name by which the campaign was found and plays no
/// further part.
pub fn withdraw(
    ctx: &mut WithdrawCtx,
    campaign_name: String,
    current_slot: u64,
    rent_exemption: u64,
) -> (r: Result<(), CustomError>)
    ensures
        r == (match old(ctx).refusal(current_slot, rent_exemption) {
            Some(e) => Err::<(), CustomError>(e),
            None => Ok(()),
        }),
        r is Ok ==> *final(ctx) == old(ctx).withdrawn(),
        r is Err ==> *final(ctx) == *old(ctx),
{
    if ctx.campaign_pda.data.campaign_owner != ctx.campaign_owner.key {
        return Err(CustomError::UnauthorizedOwner);
    }
    if current_slot < ctx.campaign_pda.data.end_donate_slot {
        return Err(CustomError::TimeoutNotReached);
    }
    let balance: u64 = ctx.campaign_pda.lamports;
    if balance < rent_exemption {
        return Err(CustomError::InvalidBalance);
    }
    let lamports_reached: u64 = balance - rent_exemption;
    if lamports_reached < ctx.campaign_pda.data.goal_in_lamports {
        return Err(CustomError::GoalNotReached);
    }
    let new_owner_lamports: u64 = match ctx.campaign_owner.lamports.checked_add(balance) {
        Some(sum) => sum,
        None => { return Err(CustomError::OverflowError); },
    };
    ctx.campaign_owner.lamports = new_owner_lamports;
    ctx.campaign_pda.lamports = 0;
    Ok(())
}

/// The accounts of a reclaim: the donor, the campaign and the donor's deposit.
#[derive(Clone, Debug, PartialEq, Eq)]
pub struct ReclaimCtx {
    pub donor: Wallet,
    pub campaign_pda: Account<CampaignPDA>,
    pub deposit_pda: Account<DepositPDA>,
}

impl ReclaimCtx {
    /// What the donor is owed: the gifts counted in the deposit record and the
    /// lamports kept under that record's own key.
    pub open spec fn refund(self) -> int {
        self.deposit_pda.lamports + self.deposit_pda.data.total_donated
    }

    /// Why a reclaim at `current_slot` is refused, or `None` if it goes through.
    /// The checks come in this order, and the first that fails decides.
    pub open spec fn refusal(self, current_slot: u64, rent_exemption: u64) -> Option<CustomError> {
        let campaign = self.campaign_pda;
        let total = self.deposit_pda.data.total_donated;
        if current_slot < campaign.data.end_donate_slot {
            Some(CustomError::TimeoutNotReached)
        } else if campaign.lamports < rent_exemption {
            Some(CustomError::InvalidBalance)
        } else if spendable(campaign.lamports, rent_exemption) >= campaign.data.goal_in_lamports {
            Some(CustomError::GoalReached)
        } else if total == 0 {
            Some(CustomError::NoFundsToReclaim)
        } else if campaign.lamports < total {
            Some(CustomError::InsufficientCampaignFunds)
        } else if self.donor.lamports + self.refund() > u64::MAX {
            Some(CustomError::OverflowError)
        } else {
            None
        }
    }

    /// The accounts after a reclaim that went through: the donor has the
    /// refund, the campaign has the gifts less, and the deposit is empty.
    pub open spec fn reclaimed(self) -> ReclaimCtx {
        ReclaimCtx {
            donor: Wallet { lamports: (self.donor.lamports + self.refund()) as u64, ..self.donor },
            campaign_pda: Account {
                lamports: (self.campaign_pda.lamports - self.deposit_pda.data.total_donated) as u64,
                ..self.campaign_pda
            },
            deposit_pda: Account {
                lamports: 0,
                data: DepositPDA { total_donated: 0 },
                ..self.deposit_pda
            },
        }
    }
}

/// Gives a donor their gifts back once the campaign has ended short of its goal.
///
/// `rent_exemption` is the reserve the campaign record has to keep. The donor
/// also receives the lamports of their deposit account, which stays behind
/// empty, with a total of zero. `campaign_name` is the name by which the
/// campaign was found and plays no further part.
pub fn reclaim(
    ctx: &mut ReclaimCtx,
    campaign_name: String,
    current_slot: u64,
    rent_exemption: u64,
) -> (r: Result<(), CustomError>)
    ensures
        r == (match old(ctx).refusal(current_slot, rent_exemption) {
            Some(e) => Err::<(), CustomError>(e),
            None => Ok(()),
        }),
        r is Ok ==> *final(ctx) == old(ctx).reclaimed(),
        r is Err ==> *final(ctx) == *old(ctx),
{
    if current_slot < ctx.campaign_pda.data.end_donate_slot {
        return Err(CustomError::TimeoutNotReached);
    }
    let balance: u64 = ctx.campaign_pda.lamports;
    if balance < rent_exemption {
        return Err(CustomError::InvalidBalance);
    }
    let lamports_reached: u64 = balance - rent_exemption;
    if lamports_reached >= ctx.campaign_pda.data.goal_in_lamports {
        return Err(CustomError::GoalReached);
    }
    let total: u64 = ctx.deposit_pda.data.total_donated;
    if total == 0 {
        return Err(CustomError::NoFundsToReclaim);
    }
    if balance < total {
        return Err(CustomError::InsufficientCampaignFunds);
    }
    let refund: u64 = match ctx.deposit_pda.lamports.checked_add(total) {
        Some(refund) => refund,
        None => { return Err(CustomError::OverflowError); },
    };
    let paid: u64 = match ctx.donor.lamports.checked_add(refund) {
        Some(paid) => paid,
        None => { return Err(CustomError::OverflowError); },
    };
    ctx.donor.lamports = paid;
    ctx.deposit_pda.lamports = 0;
    ctx.campaign_pda.lamports = balance - total;
    ctx.deposit_pda.data.total_donated = 0;
    Ok(())
}

/// A campaign is created exactly when its goal is positive and its end lies
/// ahead, and the record it then has is well formed.
pub proof fn lemma_creation_rule(
    ctx: InitializeCtx,
    campaign_name: String,
    end_donate_slot: u64,
    goal_in_lamports: u64,
    current_slot: u64,
)
    ensures
        InitializeCtx::refusal(end_donate_slot, goal_in_lamports, current_slot) is Some <==> (
        goal_in_lamports == 0 || end_donate_slot <= current_slot),
        InitializeCtx::refusal(end_donate_slot, goal_in_lamports, current_slot) matches Some(e)
            ==> e.kind_of() == ErrorKind::Validation,
        InitializeCtx::refusal(end_donate_slot, goal_in_lamports, current_slot) is None
            ==> ctx.initialized(
            campaign_name,
            end_donate_slot,
            goal_in_lamports,
        ).campaign_pda.data.well_formed(),
{
}

/// A donation that goes through adds its amount to the donor's count and
/// orders exactly that amount from the donor to the campaign: once the order
/// is settled, the campaign's balance has grown by the amount as well. The
/// campaign's record is as it was.
pub proof fn lemma_donation_adds_amount(ctx: DonateCtx, donated_lamports: u64, current_slot: u64)
    requires
        ctx.refusal(donated_lamports, current_slot) is None,
    ensures
        ctx.donated(donated_lamports).deposit_pda.data.total_donated
            == ctx.deposit_pda.data.total_donated + donated_lamports,
        ctx.payment(donated_lamports).from == ctx.donor.key,
        ctx.payment(donated_lamports).to == ctx.campaign_pda.key,
        ctx.payment(donated_lamports).credited(ctx.campaign_pda.lamports)
            == ctx.campaign_pda.lamports + donated_lamports,
        ctx.payment(donated_lamports).debited(ctx.donor.lamports) == ctx.donor.lamports
            - donated_lamports,
        ctx.donated(donated_lamports).campaign_pda == ctx.campaign_pda,
{
}

/// Donations of different donors do not get in each other's way: a donation
/// leaves the campaign account and every other donor's record as they were,
/// so whether the next one is taken does not depend on it, and the campaign
/// ends up with the same balance in whichever order the two orders settle.
pub proof fn lemma_donations_commute(
    first: DonateCtx,
    first_lamports: u64,
    first_slot: u64,
    second: DonateCtx,
    second_lamports: u64,
    second_slot: u64,
)
    requires
        first.campaign_pda == second.campaign_pda,
        first.refusal(first_lamports, first_slot) is None,
    ensures
        (DonateCtx { campaign_pda: first.donated(first_lamports).campaign_pda, ..second }).refusal(
            second_lamports,
            second_slot,
        ) == second.refusal(second_lamports, second_slot),
        first.payment(first_lamports).credited(first.campaign_pda.lamports) + second.payment(
            second_lamports,
        ).lamports == second.payment(second_lamports).credited(second.campaign_pda.lamports)
            + first.payment(first_lamports).lamports,
{
}

/// A donation that would take the donor's count past what 64 bits hold is
/// refused as an arithmetic error, at any slot in which donations are taken.
pub proof fn lemma_donation_overflow_refused(
    ctx: DonateCtx,
    donated_lamports: u64,
    current_slot: u64,
)
    requires
        donated_lamports > 0,
        current_slot <= ctx.campaign_pda.data.end_donate_slot,
        ctx.deposit_pda.data.total_donated + donated_lamports > u64::MAX,
    ensures
        ctx.refusal(donated_lamports, current_slot) == Some(CustomError::DonationOverflow),
        CustomError::DonationOverflow.kind_of() == ErrorKind::Arithmetic,
{
}

/// A gift above zero that the donor's count can hold is taken exactly up to
/// and including the campaign's last slot, and refused as a timing error
/// after it.
pub proof fn lemma_donation_window(ctx: DonateCtx, donated_lamports: u64, current_slot: u64)
    requires
        donated_lamports > 0,
        ctx.deposit_pda.data.total_donated + donated_lamports <= u64::MAX,
    ensures
        ctx.refusal(donated_lamports, current_slot) is None <==> current_slot
            <= ctx.campaign_pda.data.end_donate_slot,
        ctx.refusal(donated_lamports, current_slot) matches Some(e) ==> e
            == CustomError::TimeoutReached && e.kind_of() == ErrorKind::Timing,
{
}

/// The campaign's last slot takes a donation and allows a withdrawal or a
/// reclaim as well: the windows meet in that slot.
pub proof fn lemma_last_slot_is_shared(
    donation: DonateCtx,
    donated_lamports: u64,
    withdrawal: WithdrawCtx,
    reclaiming: ReclaimCtx,
    rent_exemption: u64,
)
    ensures
        donation.refusal(donated_lamports, donation.campaign_pda.data.end_donate_slot) != Some(
            CustomError::TimeoutReached,
        ),
        withdrawal.refusal(withdrawal.campaign_pda.data.end_donate_slot, rent_exemption) != Some(
            CustomError::TimeoutNotReached,
        ),
        reclaiming.refusal(reclaiming.campaign_pda.data.end_donate_slot, rent_exemption) != Some(
            CustomError::TimeoutNotReached,
        ),
{
}

/// Before the campaign's last slot a withdrawal is refused whatever the
/// campaign holds: as a timing error when the owner asks, and as an
/// authorization error when anybody else does.
pub proof fn lemma_withdraw_before_end_refused(
    ctx: WithdrawCtx,
    current_slot: u64,
    rent_exemption: u64,
)
    requires
        current_slot < ctx.campaign_pda.data.end_donate_slot,
    ensures
        ctx.refusal(current_slot, rent_exemption) == Some(
            if ctx.campaign_pda.data.campaign_owner == ctx.campaign_owner.key {
                CustomError::TimeoutNotReached
            } else {
                CustomError::UnauthorizedOwner
            },
        ),
        CustomError::TimeoutNotReached.kind_of() == ErrorKind::Timing,
        CustomError::UnauthorizedOwner.kind_of() == ErrorKind::Authorization,
{
}

/// From the campaign's last slot on, a withdrawal from a campaign short of
/// its goal is refused: as a state error when the owner asks and the balance
/// covers the reserve. One that goes through was asked by the owner, of a
/// campaign that reached its goal, and leaves the campaign with no lamports
/// and the owner with all it held.
pub proof fn lemma_withdraw_after_end(ctx: WithdrawCtx, current_slot: u64, rent_exemption: u64)
    requires
        current_slot >= ctx.campaign_pda.data.end_donate_slot,
    ensures
        spendable(ctx.campaign_pda.lamports, rent_exemption) < ctx.campaign_pda.data.goal_in_lamports
            ==> ctx.refusal(current_slot, rent_exemption) is Some,
        ctx.campaign_pda.data.campaign_owner == ctx.campaign_owner.key
            && ctx.campaign_pda.lamports >= rent_exemption
            && spendable(ctx.campaign_pda.lamports, rent_exemption)
            < ctx.campaign_pda.data.goal_in_lamports ==> ctx.refusal(current_slot, rent_exemption)
            == Some(CustomError::GoalNotReached),
        CustomError::GoalNotReached.kind_of() == ErrorKind::State,
        ctx.refusal(current_slot, rent_exemption) is None ==> {
            &&& ctx.campaign_pda.data.campaign_owner == ctx.campaign_owner.key
            &&& spendable(ctx.campaign_pda.lamports, rent_exemption)
                >= ctx.campaign_pda.data.goal_in_lamports
            &&& ctx.withdrawn().campaign_pda.lamports == 0
            &&& ctx.withdrawn().campaign_owner.lamports == ctx.campaign_owner.lamports
                + ctx.campaign_pda.lamports
            &&& ctx.withdrawn().campaign_pda.data == ctx.campaign_pda.data
        },
        ctx.campaign_pda.data.campaign_owner == ctx.campaign_owner.key
            && ctx.campaign_pda.lamports >= rent_exemption
            && spendable(ctx.campaign_pda.lamports, rent_exemption)
            >= ctx.campaign_pda.data.goal_in_lamports
            && ctx.campaign_owner.lamports + ctx.campaign_pda.lamports <= u64::MAX
            ==> ctx.refusal(current_slot, rent_exemption) is None,
{
}

/// A withdrawal is final: once a campaign has been paid out, every later
/// withdrawal and every reclaim is refused, because the campaign no longer
/// covers its reserve. This holds wherever a record needs a reserve at all.
pub proof fn lemma_withdrawal_is_final(
    ctx: WithdrawCtx,
    current_slot: u64,
    rent_exemption: u64,
    later_slot: u64,
    caller: Wallet,
    donor: Wallet,
    deposit_pda: Account<DepositPDA>,
)
    requires
        ctx.refusal(current_slot, rent_exemption) is None,
        later_slot >= current_slot,
        rent_exemption > 0,
    ensures
        (WithdrawCtx { campaign_owner: caller, campaign_pda: ctx.withdrawn().campaign_pda }).refusal(
            later_slot,
            rent_exemption,
        ) is Some,
        (ReclaimCtx { donor, campaign_pda: ctx.withdrawn().campaign_pda, deposit_pda }).refusal(
            later_slot,
            rent_exemption,
        ) == Some(CustomError::InvalidBalance),
{
}

/// From the campaign's last slot on, a reclaim from a campaign that reached
/// its goal is refused as a state error.
pub proof fn lemma_reclaim_after_goal_refused(
    ctx: ReclaimCtx,
    current_slot: u64,
    rent_exemption: u64,
)
    requires
        current_slot >= ctx.campaign_pda.data.end_donate_slot,
        spendable(ctx.campaign_pda.lamports, rent_exemption)
            >= ctx.campaign_pda.data.goal_in_lamports,
    ensures
        ctx.refusal(current_slot, rent_exemption) == Some(CustomError::GoalReached),
        CustomError::GoalReached.kind_of() == ErrorKind::State,
{
}

/// From the campaign's last slot on, a donor of a campaign short of its goal
/// gets back exactly what their record counts, and the lamports of the
/// deposit account with it; the record then counts nothing, and the campaign
/// holds that much less. This needs a count above zero that the campaign can
/// pay and the donor's balance can take.
pub proof fn lemma_reclaim_refunds_deposit(ctx: ReclaimCtx, current_slot: u64, rent_exemption: u64)
    requires
        current_slot >= ctx.campaign_pda.data.end_donate_slot,
        ctx.campaign_pda.lamports >= rent_exemption,
        spendable(ctx.campaign_pda.lamports, rent_exemption)
            < ctx.campaign_pda.data.goal_in_lamports,
        0 < ctx.deposit_pda.data.total_donated <= ctx.campaign_pda.lamports,
        ctx.donor.lamports + ctx.refund() <= u64::MAX,
    ensures
        ctx.refusal(current_slot, rent_exemption) is None,
        ctx.reclaimed().donor.lamports == ctx.donor.lamports + ctx.deposit_pda.data.total_donated
            + ctx.deposit_pda.lamports,
        ctx.reclaimed().deposit_pda.data.total_donated == 0,
        ctx.reclaimed().deposit_pda.lamports == 0,
        ctx.reclaimed().campaign_pda.lamports == ctx.campaign_pda.lamports
            - ctx.deposit_pda.data.total_donated,
        ctx.reclaimed().campaign_pda.data == ctx.campaign_pda.data,
{
}

/// A donor reclaims once: after a reclaim that went through, another by the
/// same donor is refused at any later slot, whatever the donor's wallet then
/// holds. It is refused for want of funds to reclaim, a state error, when the
/// campaign held the reclaimed count above its reserve; otherwise because
/// the campaign no longer covers its reserve.
pub proof fn lemma_second_reclaim_refused(
    ctx: ReclaimCtx,
    current_slot: u64,
    rent_exemption: u64,
    later_slot: u64,
    donor: Wallet,
)
    requires
        ctx.refusal(current_slot, rent_exemption) is None,
        later_slot >= current_slot,
    ensures
        ({
            let again = ReclaimCtx { donor, ..ctx.reclaimed() };
            &&& again.refusal(later_slot, rent_exemption) == Some(
                if ctx.deposit_pda.data.total_donated <= spendable(
                    ctx.campaign_pda.lamports,
                    rent_exemption,
                ) {
                    CustomError::NoFundsToReclaim
                } else {
                    CustomError::InvalidBalance
                },
            )
        }),
        CustomError::NoFundsToReclaim.kind_of() == ErrorKind::State,
{
}

} // verus!
