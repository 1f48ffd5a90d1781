//! Claims: listing them page by page, filtering them, and the form that
//! submits a new one.

use vstd::prelude::*;
use crate::text::{all_digits, digits_value, lemma_digits_value_nonneg, parse_u64, parse_u64_spec, unsigned_digits};

verus! {

/// The reimbursement part of a claim as the API returns it. `amount_bits` holds
/// the bits of the IEEE-754 double sent as the amount.
#[derive(Debug)]
pub struct RawReimbursement {
    pub status: Option<String>,
    pub payout_status: Option<String>,
    pub amount_bits: Option<u64>,
    pub category: Option<String>,
    pub subcategory: Option<String>,
    pub reimbursement_vendor: Option<String>,
    pub date_processed: Option<String>,
    pub note: Option<String>,
    pub employee_note: Option<String>,
}

/// A claim as the API returns it.
#[derive(Debug)]
pub struct RawClaim {
    pub id: String,
    pub status: String,
    pub reimbursement: RawReimbursement,
}

/// The page size the API reports, in whichever JSON form it came.
#[derive(Debug)]
pub enum LimitValue {
    /// A JSON number, with its value where that is a `u64`.
    Number(Option<u64>),
    /// A JSON string.
    Text(String),
    /// Any other JSON value.
    Other,
}

/// One page of the claims listing.
#[derive(Debug)]
pub struct ClaimsListData {
    pub claims: Vec<RawClaim>,
    pub limit: LimitValue,
    pub count: u64,
}

/// Body of the claims endpoint.
#[derive(Debug)]
pub struct ClaimsListResponse {
    pub data: ClaimsListData,
}

/// A claim of the employee. `amount_bits` holds the bits of the IEEE-754
/// double for the amount.
#[derive(Debug, Clone)]
pub struct Claim {
    pub id: String,
    pub status: String,
    pub reimbursement_status: Option<String>,
    pub payout_status: Option<String>,
    pub amount_bits: Option<u64>,
    pub category: Option<String>,
    pub subcategory: Option<String>,
    pub reimbursement_vendor: Option<String>,
    pub date_processed: Option<String>,
    pub note: Option<String>,
    pub employee_note: Option<String>,
}

/// Which claims a listing keeps.
#[derive(Debug, Clone, Copy, PartialEq, Eq, Structural)]
pub enum ClaimsFilter {
    InProgress,
}

/// The page size as a number: a number that fits a `u64`, or a string that
/// reads as one; 0 otherwise.
pub open spec fn limit_number(l: LimitValue) -> u64 {
    match l {
        LimitValue::Number(Some(n)) => n,
        LimitValue::Number(None) => 0,
        LimitValue::Text(s) => match parse_u64_spec(s@) {
            Some(n) => n,
            None => 0,
        },
        LimitValue::Other => 0,
    }
}

/// Whether the listing goes on after this page: the page size is known and
/// the page is full.
pub open spec fn page_continues(data: ClaimsListData) -> bool {
    limit_number(data.limit) != 0 && data.count == limit_number(data.limit)
}

/// The claim that a raw claim stands for.
pub open spec fn claim_of(raw: RawClaim) -> Claim {
    Claim {
        id: raw.id,
        status: raw.status,
        reimbursement_status: raw.reimbursement.status,
        payout_status: raw.reimbursement.payout_status,
        amount_bits: raw.reimbursement.amount_bits,
        category: raw.reimbursement.category,
        subcategory: raw.reimbursement.subcategory,
        reimbursement_vendor: raw.reimbursement.reimbursement_vendor,
        date_processed: raw.reimbursement.date_processed,
        note: raw.reimbursement.note,
        employee_note: raw.reimbursement.employee_note,
    }
}

/// The claims of a page, in order.
pub open spec fn page_claims(data: ClaimsListData) -> Seq<Claim> {
    data.claims@.map_values(|r: RawClaim| claim_of(r))
}

/// A claim that is in progress, by its own status or by its reimbursement's.
pub open spec fn is_in_progress(c: Claim) -> bool {
    c.status@ == "in_progress"@ || (c.reimbursement_status matches Some(s) && s@ == "in_progress"@)
}

/// The claims that a listing with the given filter keeps, in order.
pub open spec fn filtered_claims(all: Seq<Claim>, filter: Option<ClaimsFilter>) -> Seq<Claim> {
    match filter {
        Some(ClaimsFilter::InProgress) => all.filter(|c: Claim| is_in_progress(c)),
        None => all,
    }
}

proof fn lemma_filter_idempotent(s: Seq<Claim>, p: spec_fn(Claim) -> bool)
    ensures
        s.filter(p).filter(p) == s.filter(p),
    decreases s.len(),
{
    reveal(Seq::filter);
    if s.len() > 0 {
        lemma_filter_idempotent(s.drop_last(), p);
        let fr = s.drop_last().filter(p);
        if p(s.last()) {
            assert(fr.push(s.last()).drop_last() =~= fr);
        }
    }
}

/// The in-progress listing keeps exactly the in-progress claims: each claim it
/// keeps is in progress and was listed, each listed claim in progress is kept,
/// and filtering its result again changes nothing.
pub proof fn lemma_in_progress_listing(all: Seq<Claim>)
    ensures
        forall|i: int| 0 <= i < filtered_claims(all, Some(ClaimsFilter::InProgress)).len() ==> {
            &&& is_in_progress(#[trigger] filtered_claims(all, Some(ClaimsFilter::InProgress))[i])
            &&& all.contains(filtered_claims(all, Some(ClaimsFilter::InProgress))[i])
        },
        forall|i: int| 0 <= i < all.len() && is_in_progress(#[trigger] all[i]) ==>
            filtered_claims(all, Some(ClaimsFilter::InProgress)).contains(all[i]),
        filtered_claims(filtered_claims(all, Some(ClaimsFilter::InProgress)), Some(ClaimsFilter::InProgress))
            == filtered_claims(all, Some(ClaimsFilter::InProgress)),
        forall|i: int| 0 <= i < filtered_claims(all, Some(ClaimsFilter::InProgress)).len() ==> {
            let c = #[trigger] filtered_claims(all, Some(ClaimsFilter::InProgress))[i];
            c.status@ == "in_progress"@ || (c.reimbursement_status matches Some(s) && s@ == "in_progress"@)
        },
        forall|i: int| 0 <= i < all.len() && ((#[trigger] all[i]).status@ == "in_progress"@
            || (all[i].reimbursement_status matches Some(s) && s@ == "in_progress"@)) ==>
            filtered_claims(all, Some(ClaimsFilter::InProgress)).contains(all[i]),
        filtered_claims(all, None) == all,
{
    broadcast use vstd::seq_lib::group_filter_ensures;
    let p = |c: Claim| is_in_progress(c);
    let r = all.filter(p);
    assert forall|i: int| 0 <= i < r.len() implies {
        &&& is_in_progress(#[trigger] r[i])
        &&& all.contains(r[i])
    } by {
        assert(p(r[i]));
        assert(r.contains(r[i]));
        all.lemma_filter_contains_rev(p, r[i]);
    }
    assert forall|i: int| 0 <= i < all.len() && is_in_progress(#[trigger] all[i]) implies r.contains(all[i]) by {
        assert(p(all[i]));
    }
    lemma_filter_idempotent(all, p);
}

/// Each claim of a page is its raw claim field by field: id and status from the
/// claim, every other field from the reimbursement field of the same name
/// (`reimbursement_status` from its `status`), in the page's order.
pub proof fn lemma_page_claims_correspond(data: ClaimsListData)
    ensures
        page_claims(data).len() == data.claims@.len(),
        forall|i: int| 0 <= i < data.claims@.len() ==> {
            let c = #[trigger] page_claims(data)[i];
            let raw = data.claims@[i];
            &&& c.id == raw.id
            &&& c.status == raw.status
            &&& c.reimbursement_status == raw.reimbursement.status
            &&& c.payout_status == raw.reimbursement.payout_status
            &&& c.amount_bits == raw.reimbursement.amount_bits
            &&& c.category == raw.reimbursement.category
            &&& c.subcategory == raw.reimbursement.subcategory
            &&& c.reimbursement_vendor == raw.reimbursement.reimbursement_vendor
            &&& c.date_processed == raw.reimbursement.date_processed
            &&& c.note == raw.reimbursement.note
            &&& c.employee_note == raw.reimbursement.employee_note
        },
{
}

/// The page size is the JSON number where it is a `u64`, the number a JSON
/// string spells in decimal (optional `+`, digits only, fitting 64 bits), and 0
/// for anything else; the listing goes on exactly when that size is nonzero
/// and the page holds that many claims by its count.
pub proof fn lemma_page_size_and_continuation(data: ClaimsListData)
    ensures
        data.limit matches LimitValue::Number(Some(n)) ==> limit_number(data.limit) == n,
        data.limit matches LimitValue::Number(None) ==> limit_number(data.limit) == 0,
        data.limit is Other ==> limit_number(data.limit) == 0,
        data.limit matches LimitValue::Text(t) ==> {
            let ds = unsigned_digits(t@);
            if ds.len() > 0 && all_digits(ds) && digits_value(ds) <= u64::MAX {
                limit_number(data.limit) == digits_value(ds)
            } else {
                limit_number(data.limit) == 0
            }
        },
        page_continues(data) <==> (limit_number(data.limit) != 0 && data.count == limit_number(data.limit)),
        limit_number(data.limit) == 0 ==> !page_continues(data),
{
    if let LimitValue::Text(t) = data.limit {
        let ds = unsigned_digits(t@);
        if ds.len() > 0 && all_digits(ds) && digits_value(ds) <= u64::MAX {
            lemma_digits_value_nonneg(ds);
            assert(parse_u64_spec(t@) == Some(digits_value(ds) as u64));
        }
    }
}

/// The page size of a claims page, as the listing reads it.
pub fn limit_value(l: &LimitValue) -> (r: u64)
    ensures
        r == limit_number(*l),
{
    match l {
        LimitValue::Number(Some(n)) => *n,
        LimitValue::Number(None) => 0,
        LimitValue::Text(s) => match parse_u64(s.as_str()) {
            Some(n) => n,
            None => 0,
        },
        LimitValue::Other => 0,
    }
}

/// The claim that a raw claim stands for.
pub fn claim_from_raw(raw: RawClaim) -> (r: Claim)
    ensures
        r == claim_of(raw),
        r.id == raw.id,
        r.status == raw.status,
        r.reimbursement_status == raw.reimbursement.status,
        r.payout_status == raw.reimbursement.payout_status,
        r.amount_bits == raw.reimbursement.amount_bits,
        r.category == raw.reimbursement.category,
        r.subcategory == raw.reimbursement.subcategory,
        r.reimbursement_vendor == raw.reimbursement.reimbursement_vendor,
        r.date_processed == raw.reimbursement.date_processed,
        r.note == raw.reimbursement.note,
        r.employee_note == raw.reimbursement.employee_note,
{
    Claim {
        id: raw.id,
        status: raw.status,
        reimbursement_status: raw.reimbursement.status,
        payout_status: raw.reimbursement.payout_status,
        amount_bits: raw.reimbursement.amount_bits,
        category: raw.reimbursement.category,
        subcategory: raw.reimbursement.subcategory,
        reimbursement_vendor: raw.reimbursement.reimbursement_vendor,
        date_processed: raw.reimbursement.date_processed,
        note: raw.reimbursement.note,
        employee_note: raw.reimbursement.employee_note,
    }
}

/// The state of a claims listing: the next page to fetch, the claims gathered
/// so far, and whether the last page has been seen.
pub struct ClaimsPaging {
    page: u32,
    claims: Vec<Claim>,
    finished: bool,
}

/// A claims listing seen as plain values.
pub struct ClaimsPagingView {
    pub page: u32,
    pub claims: Seq<Claim>,
    pub finished: bool,
}

impl View for ClaimsPaging {
    type V = ClaimsPagingView;

    closed spec fn view(&self) -> ClaimsPagingView {
        ClaimsPagingView { page: self.page, claims: self.claims@, finished: self.finished }
    }
}

impl ClaimsPaging {
    /// A listing that starts at page 0 with no claims.
    pub fn new() -> (r: ClaimsPaging)
        ensures
            r@.page == 0,
            r@.claims == Seq::<Claim>::empty(),
            !r@.finished,
    {
        ClaimsPaging { page: 0, claims: Vec::new(), finished: false }
    }

    /// The page to fetch next, or `None` once the listing is complete.
    pub fn next_page(&self) -> (r: Option<u32>)
        ensures
            r == (if self@.finished { None } else { Some(self@.page) }),
    {
        if self.finished {
            None
        } else {
            Some(self.page)
        }
    }

    /// Whether taking `data` in would move the listing past the last page
    /// number a `u32` can hold.
    pub fn would_overflow(&self, data: &ClaimsListData) -> (r: bool)
        ensures
            r == (page_continues(*data) && self@.page == u32::MAX),
    {
        let limit = limit_value(&data.limit);
        limit != 0 && data.count == limit && self.page == u32::MAX
    }

    /// Takes in the page just fetched: its claims join the listing in order, and
    /// the listing moves to the next page when this one was full, and is
    /// complete otherwise.
    pub fn receive_page(&mut self, data: ClaimsListData)
        requires
            !old(self)@.finished,
            !(page_continues(data) && old(self)@.page == u32::MAX),
        ensures
            final(self)@.claims == old(self)@.claims + page_claims(data),
            final(self)@.finished == !page_continues(data),
            final(self)@.page == (if page_continues(data) { (old(self)@.page + 1) as u32 } else { old(self)@.page }),
    {
        let limit = limit_value(&data.limit);
        let count = data.count;
        let ghost start = self.claims@;
        let ghost raws = data.claims@;
        let ghost f = |r: RawClaim| claim_of(r);
        assert(raws.len() == data.claims.len());
        let mut raw_claims = data.claims;
        let mut rest: Vec<RawClaim> = Vec::new();
        // Take the claims out back to front, then move them over front to back.
        while raw_claims.len() > 0
            invariant
                rest@.len() + raw_claims@.len() == raws.len(),
                raws.len() <= usize::MAX,
                raw_claims@ == raws.take(raw_claims@.len() as int),
                forall|j: int| 0 <= j < rest@.len() ==> #[trigger] rest@[j] == raws[raws.len() - 1 - j],
            decreases raw_claims.len(),
        {
            let r = raw_claims.pop().unwrap();
            rest.push(r);
            assert(raw_claims@ =~= raws.take(raw_claims@.len() as int));
        }
        let mut moved: usize = 0;
        while rest.len() > 0
            invariant
                rest@.len() + moved == raws.len(),
                raws.len() <= usize::MAX,
                forall|j: int| 0 <= j < rest@.len() ==> #[trigger] rest@[j] == raws[raws.len() - 1 - j],
                self.claims@ == start + raws.take(moved as int).map_values(f),
                f == (|r: RawClaim| claim_of(r)),
                self.page == old(self).page,
                self.finished == old(self).finished,
            decreases rest.len(),
        {
            let r = rest.pop().unwrap();
            proof {
                assert(r == raws[moved as int]);
                assert(raws.take(moved + 1) =~= raws.take(moved as int).push(raws[moved as int]));
                assert(raws.take(moved + 1).map_values(f) =~= raws.take(moved as int).map_values(f).push(
                    f(raws[moved as int]),
                ));
            }
            self.claims.push(claim_from_raw(r));
            moved = moved + 1;
        }
        assert(raws.take(moved as int) =~= raws);
        if limit == 0 || count != limit {
            self.finished = true;
        } else {
            self.page = self.page + 1;
        }
    }

    /// The claims gathered so far, in the order the pages gave them.
    pub fn into_claims(self) -> (r: Vec<Claim>)
        ensures
            r@ == self@.claims,
    {
        self.claims
    }
}

fn is_in_progress_exec(c: &Claim) -> (r: bool)
    ensures
        r == is_in_progress(*c),
{
    let wanted = String::from_str("in_progress");
    if c.status == wanted {
        return true;
    }
    match &c.reimbursement_status {
        Some(s) => *s == wanted,
        None => false,
    }
}

/// The claims a listing keeps: all of them, or with the in-progress filter those
/// whose status, or whose reimbursement's status, is `in_progress`; in order.
pub fn get_claims_list(all: Vec<Claim>, filter: Option<ClaimsFilter>) -> (r: Vec<Claim>)
    ensures
        r@ == filtered_claims(all@, filter),
{
    match filter {
        None => all,
        Some(ClaimsFilter::InProgress) => {
            let ghost p = |c: Claim| is_in_progress(c);
            let ghost src = all@;
            let mut out: Vec<Claim> = Vec::new();
            assert(src.len() == all.len());
            let mut rest = all;
            let mut back: Vec<Claim> = Vec::new();
            while rest.len() > 0
                invariant
                    back@.len() + rest@.len() == src.len(),
                    src.len() <= usize::MAX,
                    rest@ == src.take(rest@.len() as int),
                    forall|j: int| 0 <= j < back@.len() ==> #[trigger] back@[j] == src[src.len() - 1 - j],
                decreases rest.len(),
            {
                let c = rest.pop().unwrap();
                back.push(c);
                assert(rest@ =~= src.take(rest@.len() as int));
            }
            let mut seen: usize = 0;
            while back.len() > 0
                invariant
                    back@.len() + seen == src.len(),
                src.len() <= usize::MAX,
                    forall|j: int| 0 <= j < back@.len() ==> #[trigger] back@[j] == src[src.len() - 1 - j],
                    p == (|c: Claim| is_in_progress(c)),
                    out@ == src.take(seen as int).filter(p),
                decreases back.len(),
            {
                let c = back.pop().unwrap();
                proof {
                    reveal(Seq::filter);
                    assert(c == src[seen as int]);
                    let t = src.take(seen + 1);
                    assert(t.drop_last() =~= src.take(seen as int));
                    assert(t.last() == c);
                }
                if is_in_progress_exec(&c) {
                    out.push(c);
                }
                seen = seen + 1;
            }
            assert(src.take(seen as int) =~= src);
            out
        },
    }
}


#[verifier::external_type_specification]
#[verifier::external_body]
pub struct ExPathBuf(std::path::PathBuf);

/// Everything needed to submit a claim.
#[derive(Debug, Clone)]
pub struct CreateClaimOptions {
    pub amount: String,
    pub merchant: String,
    pub purchase_date: String,
    pub description: String,
    pub receipt_path: Vec<std::path::PathBuf>,
    pub access_token: String,
    pub benefit_id: String,
    pub category_id: String,
    pub subcategory_value: String,
    pub subcategory_alias: Option<String>,
}

/// The text of an optional string, empty where there is none.
pub open spec fn text_or_empty(s: Option<String>) -> Seq<char> {
    match s {
        Some(t) => t@,
        None => Seq::empty(),
    }
}

/// The text fields of the form that submits a claim, name and value, in the
/// order they are sent; the receipts follow them as file parts.
pub open spec fn claim_form_spec(opts: CreateClaimOptions) -> Seq<(Seq<char>, Seq<char>)> {
    seq![
        ("type"@, "transaction"@),
        ("is_recurring"@, "false"@),
        ("amount"@, opts.amount@),
        ("transaction_date"@, opts.purchase_date@),
        ("default_employee_wallet_id"@, opts.benefit_id@),
        ("note"@, opts.description@),
        ("category"@, opts.category_id@),
        ("category_alias"@, Seq::empty()),
        ("subcategory"@, opts.subcategory_value@),
        ("subcategory_alias"@, text_or_empty(opts.subcategory_alias)),
        ("reimbursement_vendor"@, opts.merchant@),
    ]
}

/// The `subcategory` field always carries the subcategory's value, and the
/// alias, where one was chosen, goes only into the `subcategory_alias` field:
/// two claims that differ only in their alias send the same form but for that
/// field.
pub proof fn lemma_alias_only_in_alias_field(a: CreateClaimOptions, b: CreateClaimOptions)
    requires
        a.amount@ == b.amount@,
        a.merchant@ == b.merchant@,
        a.purchase_date@ == b.purchase_date@,
        a.description@ == b.description@,
        a.benefit_id@ == b.benefit_id@,
        a.category_id@ == b.category_id@,
        a.subcategory_value@ == b.subcategory_value@,
    ensures
        claim_form_spec(a).len() == 11,
        claim_form_spec(a)[8] == ("subcategory"@, a.subcategory_value@),
        claim_form_spec(a)[9] == ("subcategory_alias"@, text_or_empty(a.subcategory_alias)),
        forall|i: int| 0 <= i < 11 && i != 9 ==> #[trigger] claim_form_spec(a)[i] == claim_form_spec(b)[i],
{
}

/// A form field taken by its characters.
pub open spec fn field_view(f: (String, String)) -> (Seq<char>, Seq<char>) {
    (f.0@, f.1@)
}

fn field(name: &str, value: String) -> (r: (String, String))
    ensures
        field_view(r) == (name@, value@),
{
    (String::from_str(name), value)
}

/// The text fields of the form that submits the claim described by `opts`.
pub fn claim_form_fields(opts: &CreateClaimOptions) -> (r: Vec<(String, String)>)
    ensures
        r@.map_values(|f: (String, String)| field_view(f)) == claim_form_spec(*opts),
        r@.len() == 11,
        r@[8].0@ == "subcategory"@,
        r@[8].1@ == opts.subcategory_value@,
        r@[9].0@ == "subcategory_alias"@,
        r@[9].1@ == text_or_empty(opts.subcategory_alias),
{
    let alias = match &opts.subcategory_alias {
        Some(a) => a.clone(),
        None => String::new(),
    };
    let mut r: Vec<(String, String)> = Vec::new();
    r.push(field("type", String::from_str("transaction")));
    r.push(field("is_recurring", String::from_str("false")));
    r.push(field("amount", opts.amount.clone()));
    r.push(field("transaction_date", opts.purchase_date.clone()));
    r.push(field("default_employee_wallet_id", opts.benefit_id.clone()));
    r.push(field("note", opts.description.clone()));
    r.push(field("category", opts.category_id.clone()));
    r.push(field("category_alias", String::new()));
    r.push(field("subcategory", opts.subcategory_value.clone()));
    r.push(field("subcategory_alias", alias));
    r.push(field("reimbursement_vendor", opts.merchant.clone()));
    assert(r@.map_values(|f: (String, String)| field_view(f)) =~= claim_form_spec(*opts));
    r
}

} // verus!
