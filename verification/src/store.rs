//! The write rules of the two submission tables, on rows held in memory:
//! a contact submission is appended and never changed; a waitlist entry is
//! keyed by email and interest, and a second one under the same key
//! overwrites name and company in place.

use vstd::prelude::*;
use crate::models::ContactRequest;
use crate::models::ContactSubmission;
use crate::models::Timestamp;
use crate::models::WaitlistEntry;
use crate::models::WaitlistRequest;
use crate::text::clone_option;
use crate::text::option_text;
use crate::text::text_or;

verus! {

/// Mathematical model of a [`WaitlistEntry`].
pub struct WaitlistEntryView {
    pub id: u128,
    pub email: Seq<char>,
    pub name: Option<Seq<char>>,
    pub company: Option<Seq<char>>,
    pub interest: Seq<char>,
    pub created_at: Timestamp,
}

impl View for WaitlistEntry {
    type V = WaitlistEntryView;

    open spec fn view(&self) -> WaitlistEntryView {
        WaitlistEntryView {
            id: self.id,
            email: self.email@,
            name: option_text(self.name),
            company: option_text(self.company),
            interest: self.interest@,
            created_at: self.created_at,
        }
    }
}

/// Mathematical model of a [`ContactSubmission`].
pub struct ContactSubmissionView {
    pub id: u128,
    pub name: Seq<char>,
    pub email: Seq<char>,
    pub company: Option<Seq<char>>,
    pub phone: Option<Seq<char>>,
    pub acreage: Option<Seq<char>>,
    pub crop_type: Option<Seq<char>>,
    pub message: Seq<char>,
    pub source: Seq<char>,
    pub created_at: Timestamp,
}

impl View for ContactSubmission {
    type V = ContactSubmissionView;

    open spec fn view(&self) -> ContactSubmissionView {
        ContactSubmissionView {
            id: self.id,
            name: self.name@,
            email: self.email@,
            company: option_text(self.company),
            phone: option_text(self.phone),
            acreage: option_text(self.acreage),
            crop_type: option_text(self.crop_type),
            message: self.message@,
            source: self.source@,
            created_at: self.created_at,
        }
    }
}

/// The rows of a waitlist table as models.
pub open spec fn waitlist_rows(rows: Seq<WaitlistEntry>) -> Seq<WaitlistEntryView> {
    rows.map_values(|e: WaitlistEntry| e@)
}

/// The rows of a contact table as models.
pub open spec fn contact_rows(rows: Seq<ContactSubmission>) -> Seq<ContactSubmissionView> {
    rows.map_values(|s: ContactSubmission| s@)
}

/// The row is the one stored under the key.
pub open spec fn has_key(row: WaitlistEntryView, email: Seq<char>, interest: Seq<char>) -> bool {
    row.email == email && row.interest == interest
}

/// Some row is stored under the key.
pub open spec fn key_present(rows: Seq<WaitlistEntryView>, email: Seq<char>, interest: Seq<char>) -> bool {
    exists|i: int| 0 <= i < rows.len() && has_key(#[trigger] rows[i], email, interest)
}

/// No two rows share a key.
pub open spec fn unique_keys(rows: Seq<WaitlistEntryView>) -> bool {
    forall|i: int, j: int|
        0 <= i < rows.len() && 0 <= j < rows.len() && i != j ==> !has_key(
            #[trigger] rows[i],
            (#[trigger] rows[j]).email,
            rows[j].interest,
        )
}

/// The row that a contact form is stored as.
pub open spec fn contact_row(req: ContactRequest, id: u128, created_at: Timestamp) -> ContactSubmissionView {
    ContactSubmissionView {
        id,
        name: req.name@,
        email: req.email@,
        company: option_text(req.company),
        phone: option_text(req.phone),
        acreage: option_text(req.acreage),
        crop_type: option_text(req.crop_type),
        message: req.message@,
        source: text_or(req.source, "website"@),
        created_at,
    }
}

/// The row that a waitlist form is stored as where its key is new.
pub open spec fn waitlist_row(req: WaitlistRequest, id: u128, created_at: Timestamp) -> WaitlistEntryView {
    WaitlistEntryView {
        id,
        email: req.email@,
        name: option_text(req.name),
        company: option_text(req.company),
        interest: text_or(req.interest, "general"@),
        created_at,
    }
}

/// The table after a waitlist form was stored: where its key is present,
/// the row under that key takes the form's name and company and keeps the
/// rest; where it is not, the form's row is appended.
pub open spec fn upserted(rows: Seq<WaitlistEntryView>, new: WaitlistEntryView) -> Seq<
    WaitlistEntryView,
> {
    if key_present(rows, new.email, new.interest) {
        rows.map_values(
            |row: WaitlistEntryView|
                if has_key(row, new.email, new.interest) {
                    WaitlistEntryView { name: new.name, company: new.company, ..row }
                } else {
                    row
                },
        )
    } else {
        rows.push(new)
    }
}

/// The row stored under the key of `new` after it was stored.
pub open spec fn stored_row(rows: Seq<WaitlistEntryView>, new: WaitlistEntryView) -> WaitlistEntryView {
    if key_present(rows, new.email, new.interest) {
        let i = choose|i: int| 0 <= i < rows.len() && has_key(#[trigger] rows[i], new.email, new.interest);
        WaitlistEntryView { name: new.name, company: new.company, ..rows[i] }
    } else {
        new
    }
}

fn find_entry(rows: &Vec<WaitlistEntry>, email: &String, interest: &String) -> (r: Option<usize>)
    ensures
        match r {
            Some(i) => i < rows.len() && has_key(rows[i as int]@, email@, interest@),
            None => !key_present(waitlist_rows(rows@), email@, interest@),
        },
{
    let mut i: usize = 0;
    while i < rows.len()
        invariant
            0 <= i <= rows.len(),
            forall|j: int| 0 <= j < i ==> !has_key(#[trigger] rows[j]@, email@, interest@),
        decreases rows.len() - i,
    {
        if rows[i].email == *email && rows[i].interest == *interest {
            return Some(i);
        }
        i = i + 1;
    }
    proof {
        assert forall|j: int| 0 <= j < waitlist_rows(rows@).len() implies !has_key(
            #[trigger] waitlist_rows(rows@)[j],
            email@,
            interest@,
        ) by {
            assert(waitlist_rows(rows@)[j] == rows[j]@);
        }
    }
    None
}

fn copy_entry(e: &WaitlistEntry) -> (r: WaitlistEntry)
    ensures
        r@ == e@,
{
    WaitlistEntry {
        id: e.id,
        email: e.email.clone(),
        name: clone_option(&e.name),
        company: clone_option(&e.company),
        interest: e.interest.clone(),
        created_at: e.created_at,
    }
}

fn copy_submission(s: &ContactSubmission) -> (r: ContactSubmission)
    ensures
        r@ == s@,
{
    ContactSubmission {
        id: s.id,
        name: s.name.clone(),
        email: s.email.clone(),
        company: clone_option(&s.company),
        phone: clone_option(&s.phone),
        acreage: clone_option(&s.acreage),
        crop_type: clone_option(&s.crop_type),
        message: s.message.clone(),
        source: s.source.clone(),
        created_at: s.created_at,
    }
}

/// Stores a contact form as a new row and returns that row. The rows that
/// were there stay as they were.
pub fn create_contact(
    rows: &mut Vec<ContactSubmission>,
    req: &ContactRequest,
    id: u128,
    created_at: Timestamp,
) -> (row: ContactSubmission)
    ensures
        row@ == contact_row(*req, id, created_at),
        contact_rows(final(rows)@) == contact_rows(old(rows)@).push(row@),
{
    let row = ContactSubmission {
        id,
        name: req.name.clone(),
        email: req.email.clone(),
        company: clone_option(&req.company),
        phone: clone_option(&req.phone),
        acreage: clone_option(&req.acreage),
        crop_type: clone_option(&req.crop_type),
        message: req.message.clone(),
        source: req.source_or_default(),
        created_at,
    };
    let stored = copy_submission(&row);
    rows.push(stored);
    proof {
        assert(contact_rows(rows@) =~= contact_rows(old(rows)@).push(row@));
    }
    row
}

/// Stores a waitlist form and returns the row now held under its key.
///
/// A form whose email and interest are in the table already overwrites the
/// name and company of that row; any other form becomes a new row with the
/// given id and creation time.
pub fn create_waitlist_entry(
    rows: &mut Vec<WaitlistEntry>,
    req: &WaitlistRequest,
    id: u128,
    created_at: Timestamp,
) -> (row: WaitlistEntry)
    requires
        unique_keys(waitlist_rows(old(rows)@)),
    ensures
        unique_keys(waitlist_rows(final(rows)@)),
        waitlist_rows(final(rows)@) == upserted(
            waitlist_rows(old(rows)@),
            waitlist_row(*req, id, created_at),
        ),
        row@ == stored_row(waitlist_rows(old(rows)@), waitlist_row(*req, id, created_at)),
{
    let interest = req.interest_or_default();
    let ghost new = waitlist_row(*req, id, created_at);
    let ghost before = waitlist_rows(rows@);
    match find_entry(rows, &req.email, &interest) {
        Some(i) => {
            let held = &rows[i];
            let updated = WaitlistEntry {
                id: held.id,
                email: held.email.clone(),
                name: clone_option(&req.name),
                company: clone_option(&req.company),
                interest: held.interest.clone(),
                created_at: held.created_at,
            };
            let row = copy_entry(&updated);
            proof {
                assert(before[i as int] == rows[i as int]@);
                assert(has_key(before[i as int], new.email, new.interest));
                lemma_key_is_at(before, new.email, new.interest, i as int);
            }
            rows.set(i, updated);
            proof {
                let after = waitlist_rows(rows@);
                assert forall|j: int| 0 <= j < after.len() implies after[j] == upserted(
                    before,
                    new,
                )[j] by {
                    assert(after[j] == rows[j]@);
                    if j != i {
                        assert(before[j] == old(rows)[j]@);
                        assert(!has_key(before[j], before[i as int].email, before[i as int].interest));
                    }
                }
                assert(after =~= upserted(before, new));
                lemma_upsert_keeps_keys_unique(before, new);
            }
            row
        },
        None => {
            let fresh = WaitlistEntry {
                id,
                email: req.email.clone(),
                name: clone_option(&req.name),
                company: clone_option(&req.company),
                interest,
                created_at,
            };
            let row = copy_entry(&fresh);
            rows.push(fresh);
            proof {
                assert(waitlist_rows(rows@) =~= before.push(new));
                lemma_upsert_keeps_keys_unique(before, new);
            }
            row
        },
    }
}

proof fn lemma_key_is_at(rows: Seq<WaitlistEntryView>, email: Seq<char>, interest: Seq<char>, i: int)
    requires
        unique_keys(rows),
        0 <= i < rows.len(),
        has_key(rows[i], email, interest),
    ensures
        key_present(rows, email, interest),
        (choose|k: int| 0 <= k < rows.len() && has_key(#[trigger] rows[k], email, interest)) == i,
{
    let k = choose|k: int| 0 <= k < rows.len() && has_key(#[trigger] rows[k], email, interest);
    if k != i {
        assert(!has_key(rows[k], rows[i].email, rows[i].interest));
    }
}

/// Storing a form keeps the keys of the table unique.
pub proof fn lemma_upsert_keeps_keys_unique(rows: Seq<WaitlistEntryView>, new: WaitlistEntryView)
    requires
        unique_keys(rows),
    ensures
        unique_keys(upserted(rows, new)),
{
    let after = upserted(rows, new);
    assert forall|i: int, j: int|
        0 <= i < after.len() && 0 <= j < after.len() && i != j implies !has_key(
        #[trigger] after[i],
        (#[trigger] after[j]).email,
        after[j].interest,
    ) by {
        if key_present(rows, new.email, new.interest) {
            assert(!has_key(rows[i], rows[j].email, rows[j].interest));
        } else {
            if i < rows.len() && j < rows.len() {
                assert(!has_key(rows[i], rows[j].email, rows[j].interest));
            } else if i < rows.len() {
                assert(!has_key(rows[i], new.email, new.interest));
            } else {
                assert(!has_key(rows[j], new.email, new.interest));
            }
        }
    }
}

/// Storing two forms with the same email and interest, one after the
/// other, leaves one row under that key, not two: the second adds no row,
/// and the row under the key carries the name and company of the second.
pub proof fn lemma_upsert_is_idempotent(
    rows: Seq<WaitlistEntryView>,
    first: WaitlistEntryView,
    second: WaitlistEntryView,
)
    requires
        unique_keys(rows),
        has_key(second, first.email, first.interest),
    ensures
        upserted(upserted(rows, first), second).len() == upserted(rows, first).len(),
        unique_keys(upserted(upserted(rows, first), second)),
        exists|k: int|
            0 <= k < upserted(upserted(rows, first), second).len() && {
                let row = #[trigger] upserted(upserted(rows, first), second)[k];
                has_key(row, first.email, first.interest) && row.name == second.name && row.company
                    == second.company
            },
{
    let once = upserted(rows, first);
    lemma_upsert_keeps_keys_unique(rows, first);
    lemma_key_present_after(rows, first);
    let k = choose|k: int| 0 <= k < once.len() && has_key(#[trigger] once[k], first.email, first.interest);
    let twice = upserted(once, second);
    assert(key_present(once, second.email, second.interest));
    lemma_upsert_keeps_keys_unique(once, second);
    assert(has_key(twice[k], first.email, first.interest));
}

/// After a form was stored, its key is present.
pub proof fn lemma_key_present_after(rows: Seq<WaitlistEntryView>, new: WaitlistEntryView)
    ensures
        key_present(upserted(rows, new), new.email, new.interest),
{
    let after = upserted(rows, new);
    if key_present(rows, new.email, new.interest) {
        let i = choose|i: int| 0 <= i < rows.len() && has_key(#[trigger] rows[i], new.email, new.interest);
        assert(has_key(after[i], new.email, new.interest));
    } else {
        assert(has_key(after[rows.len() as int], new.email, new.interest));
    }
}

} // verus!
