//! The books of one campaign: its account and the deposit records of its
//! donors, and the rule that ties them together.
//!
//! A campaign is created holding its reserve. From then on, until it is paid
//! out to its owner, what it holds above the reserve is exactly what its
//! deposit records count together: donations add to both sides, reclaims
//! take from both.

use vstd::prelude::*;
use crate::account::Account;
use crate::crowdfund::{spendable, CampaignPDA, CustomError, DepositPDA, DonateCtx, ReclaimCtx};

verus! {

/// The sum of what the deposit records of one campaign count.
pub open spec fn total_deposited(deposits: Seq<DepositPDA>) -> int
    decreases deposits.len(),
{
    if deposits.len() == 0 {
        0
    } else {
        total_deposited(deposits.drop_last()) + deposits.last().total_donated
    }
}

/// Whether a campaign's books balance: what it holds above `reserve`, the
/// lamports it was created with, is what its deposit records count together.
pub open spec fn backed(balance: int, reserve: u64, deposits: Seq<DepositPDA>) -> bool {
    balance - reserve == total_deposited(deposits)
}

/// Replacing one record changes the sum by the difference of the two counts.
pub proof fn lemma_total_deposited_update(deposits: Seq<DepositPDA>, i: int, record: DepositPDA)
    requires
        0 <= i < deposits.len(),
    ensures
        total_deposited(deposits.update(i, record)) == total_deposited(deposits)
            - deposits[i].total_donated + record.total_donated,
    decreases deposits.len(),
{
    let updated = deposits.update(i, record);
    if i == deposits.len() - 1 {
        assert(updated.drop_last() =~= deposits.drop_last());
    } else {
        assert(updated.drop_last() =~= deposits.drop_last().update(i, record));
        lemma_total_deposited_update(deposits.drop_last(), i, record);
    }
}

/// The sum of the counts is never negative.
pub proof fn lemma_total_deposited_nonnegative(deposits: Seq<DepositPDA>)
    ensures
        0 <= total_deposited(deposits),
    decreases deposits.len(),
{
    if deposits.len() > 0 {
        lemma_total_deposited_nonnegative(deposits.drop_last());
    }
}

/// The sum of the counts is at least each count.
pub proof fn lemma_total_deposited_bounds(deposits: Seq<DepositPDA>, i: int)
    requires
        0 <= i < deposits.len(),
    ensures
        deposits[i].total_donated <= total_deposited(deposits),
    decreases deposits.len(),
{
    if i < deposits.len() - 1 {
        lemma_total_deposited_bounds(deposits.drop_last(), i);
    } else {
        lemma_total_deposited_nonnegative(deposits.drop_last());
    }
}

/// A campaign that holds its reserve and has no deposit record yet has
/// balanced books, and so it has after a donor's first, still empty record
/// is added.
pub proof fn lemma_books_start_balanced(reserve: u64, deposits: Seq<DepositPDA>, balance: int)
    ensures
        backed(reserve as int, reserve, Seq::<DepositPDA>::empty()),
        backed(balance, reserve, deposits) ==> backed(
            balance,
            reserve,
            deposits.push(DepositPDA { total_donated: 0 }),
        ),
{
    let grown = deposits.push(DepositPDA { total_donated: 0 });
    assert(grown.drop_last() =~= deposits);
}

/// A donation keeps the books balanced: if they balance before, with the
/// donor's record at place `i` among the campaign's deposit records, they
/// balance once the order is settled, with the record as the donation left it.
pub proof fn lemma_donation_keeps_books(
    ctx: DonateCtx,
    donated_lamports: u64,
    current_slot: u64,
    reserve: u64,
    deposits: Seq<DepositPDA>,
    i: int,
)
    requires
        0 <= i < deposits.len(),
        deposits[i] == ctx.deposit_pda.data,
        backed(ctx.campaign_pda.lamports as int, reserve, deposits),
        ctx.refusal(donated_lamports, current_slot) is None,
    ensures
        backed(
            ctx.payment(donated_lamports).credited(ctx.campaign_pda.lamports),
            reserve,
            deposits.update(i, ctx.donated(donated_lamports).deposit_pda.data),
        ),
{
    lemma_total_deposited_update(deposits, i, ctx.donated(donated_lamports).deposit_pda.data);
}

/// With balanced books the campaign covers its reserve and every deposit
/// above it: no reclaim is refused because the campaign could not pay.
pub proof fn lemma_balanced_books_cover_reclaim(
    ctx: ReclaimCtx,
    current_slot: u64,
    rent_exemption: u64,
    deposits: Seq<DepositPDA>,
    i: int,
)
    requires
        0 <= i < deposits.len(),
        deposits[i] == ctx.deposit_pda.data,
        backed(ctx.campaign_pda.lamports as int, rent_exemption, deposits),
    ensures
        ctx.deposit_pda.data.total_donated <= spendable(ctx.campaign_pda.lamports, rent_exemption),
        ctx.refusal(current_slot, rent_exemption) != Some(CustomError::InvalidBalance),
        ctx.refusal(current_slot, rent_exemption) != Some(CustomError::InsufficientCampaignFunds),
{
    lemma_total_deposited_bounds(deposits, i);
}

/// A reclaim keeps the books balanced: if they balance before, with the
/// donor's record at place `i` among the campaign's deposit records, they
/// balance after, with the record as the reclaim left it.
pub proof fn lemma_reclaim_keeps_books(
    ctx: ReclaimCtx,
    current_slot: u64,
    rent_exemption: u64,
    deposits: Seq<DepositPDA>,
    i: int,
)
    requires
        0 <= i < deposits.len(),
        deposits[i] == ctx.deposit_pda.data,
        backed(ctx.campaign_pda.lamports as int, rent_exemption, deposits),
        ctx.refusal(current_slot, rent_exemption) is None,
    ensures
        backed(
            ctx.reclaimed().campaign_pda.lamports as int,
            rent_exemption,
            deposits.update(i, ctx.reclaimed().deposit_pda.data),
        ),
{
    lemma_total_deposited_update(deposits, i, ctx.reclaimed().deposit_pda.data);
}

/// The campaign account and the deposit records that belong to it, one for
/// each donor, in a fixed order.
pub struct Books {
    pub campaign: Account<CampaignPDA>,
    pub deposits: Seq<DepositPDA>,
}

/// One thing that happens to a campaign between its creation and its payout.
pub enum Entry {
    /// A donor's deposit record is made, counting nothing yet.
    Enrolment,
    /// The donor whose record is at `place` donates with the accounts `ctx`.
    Donation { place: int, ctx: DonateCtx, donated_lamports: u64, current_slot: u64 },
    /// The donor whose record is at `place` reclaims with the accounts `ctx`.
    Reclaim { place: int, ctx: ReclaimCtx, current_slot: u64 },
}

impl Books {
    /// The books of a campaign that was just created.
    pub open spec fn opened(campaign: Account<CampaignPDA>) -> Books {
        Books { campaign, deposits: Seq::empty() }
    }

    /// Whether the books balance against the reserve.
    pub open spec fn balanced(self, reserve: u64) -> bool {
        backed(self.campaign.lamports as int, reserve, self.deposits)
    }

    /// Whether a donation is made on these books: its accounts are the
    /// campaign's and the record at `place`, it is not refused, and the
    /// account store can settle its order.
    pub open spec fn takes_donation(
        self,
        place: int,
        ctx: DonateCtx,
        donated_lamports: u64,
        current_slot: u64,
    ) -> bool {
        &&& 0 <= place < self.deposits.len()
        &&& ctx.campaign_pda == self.campaign
        &&& ctx.deposit_pda.data == self.deposits[place]
        &&& ctx.refusal(donated_lamports, current_slot) is None
        &&& ctx.payment(donated_lamports).payable(ctx.donor.lamports, ctx.campaign_pda.lamports)
    }

    /// Whether a reclaim is made on these books: its accounts are the
    /// campaign's and the record at `place`, and it is not refused.
    pub open spec fn takes_reclaim(
        self,
        place: int,
        ctx: ReclaimCtx,
        current_slot: u64,
        reserve: u64,
    ) -> bool {
        &&& 0 <= place < self.deposits.len()
        &&& ctx.campaign_pda == self.campaign
        &&& ctx.deposit_pda.data == self.deposits[place]
        &&& ctx.refusal(current_slot, reserve) is None
    }

    /// The books after one entry. An operation that is refused, or whose
    /// order the account store does not settle, leaves them as they are.
    pub open spec fn after(self, entry: Entry, reserve: u64) -> Books {
        match entry {
            Entry::Enrolment => Books {
                deposits: self.deposits.push(DepositPDA { total_donated: 0 }),
                ..self
            },
            Entry::Donation { place, ctx, donated_lamports, current_slot } => {
                if self.takes_donation(place, ctx, donated_lamports, current_slot) {
                    Books {
                        campaign: Account {
                            lamports: ctx.payment(donated_lamports).credited(
                                self.campaign.lamports,
                            ) as u64,
                            ..self.campaign
                        },
                        deposits: self.deposits.update(
                            place,
                            ctx.donated(donated_lamports).deposit_pda.data,
                        ),
                    }
                } else {
                    self
                }
            },
            Entry::Reclaim { place, ctx, current_slot } => {
                if self.takes_reclaim(place, ctx, current_slot, reserve) {
                    Books {
                        campaign: ctx.reclaimed().campaign_pda,
                        deposits: self.deposits.update(place, ctx.reclaimed().deposit_pda.data),
                    }
                } else {
                    self
                }
            },
        }
    }

    /// The books after a run of entries, from the first to the last.
    pub open spec fn after_all(self, entries: Seq<Entry>, reserve: u64) -> Books
        decreases entries.len(),
    {
        if entries.len() == 0 {
            self
        } else {
            self.after_all(entries.drop_last(), reserve).after(entries.last(), reserve)
        }
    }
}

/// One entry keeps balanced books balanced and the campaign's record as it
/// was.
pub proof fn lemma_entry_keeps_books(books: Books, entry: Entry, reserve: u64)
    requires
        books.balanced(reserve),
    ensures
        books.after(entry, reserve).balanced(reserve),
        books.after(entry, reserve).campaign.data == books.campaign.data,
        books.after(entry, reserve).campaign.key == books.campaign.key,
{
    match entry {
        Entry::Enrolment => {
            lemma_books_start_balanced(reserve, books.deposits, books.campaign.lamports as int);
        },
        Entry::Donation { place, ctx, donated_lamports, current_slot } => {
            if books.takes_donation(place, ctx, donated_lamports, current_slot) {
                lemma_donation_keeps_books(
                    ctx,
                    donated_lamports,
                    current_slot,
                    reserve,
                    books.deposits,
                    place,
                );
            }
        },
        Entry::Reclaim { place, ctx, current_slot } => {
            if books.takes_reclaim(place, ctx, current_slot, reserve) {
                lemma_reclaim_keeps_books(ctx, current_slot, reserve, books.deposits, place);
            }
        },
    }
}

/// The books of a campaign balance at every point between its creation and
/// its payout: whatever donors enrol, donate and reclaim, in whatever order,
/// what the campaign holds above its reserve is what its deposit records
/// count together.
pub proof fn lemma_books_stay_balanced(books: Books, entries: Seq<Entry>, reserve: u64)
    requires
        books.balanced(reserve),
    ensures
        books.after_all(entries, reserve).balanced(reserve),
        books.after_all(entries, reserve).campaign.data == books.campaign.data,
        books.after_all(entries, reserve).campaign.key == books.campaign.key,
    decreases entries.len(),
{
    if entries.len() > 0 {
        lemma_books_stay_balanced(books, entries.drop_last(), reserve);
        lemma_entry_keeps_books(
            books.after_all(entries.drop_last(), reserve),
            entries.last(),
            reserve,
        );
    }
}

/// The books of a campaign that was created holding exactly its reserve
/// balance from the start, and so at every later point before its payout.
pub proof fn lemma_new_campaign_books_balance(
    campaign: Account<CampaignPDA>,
    entries: Seq<Entry>,
    reserve: u64,
)
    requires
        campaign.lamports == reserve,
    ensures
        Books::opened(campaign).after_all(entries, reserve).balanced(reserve),
{
    lemma_books_start_balanced(reserve, Seq::empty(), reserve as int);
    lemma_books_stay_balanced(Books::opened(campaign), entries, reserve);
}

} // verus!
