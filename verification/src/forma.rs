//! The Forma domain: profile data as the API returns it, and the benefits and
//! categories that the client derives from it.

use vstd::prelude::*;
use crate::error::{FormaError, FormaErrorView};

verus! {

// ---------------------------------------------------------------------------
// Reply bodies (only the fields the client reads)
// ---------------------------------------------------------------------------

/// Body of the profile endpoint.
#[derive(Debug)]
pub struct ProfileResponse {
    pub data: ProfileData,
}

#[derive(Debug)]
pub struct ProfileData {
    pub company: CompanyInfo,
    pub employee: EmployeeInfo,
}

#[derive(Debug)]
pub struct CompanyInfo {
    pub company_wallet_configurations: Vec<CompanyWalletConfiguration>,
}

/// A benefit as the employer configured it, with its categories.
#[derive(Debug)]
pub struct CompanyWalletConfiguration {
    pub wallet_name: String,
    pub categories: Vec<RawCategory>,
}

#[derive(Debug)]
pub struct RawCategory {
    pub id: String,
    pub name: String,
    pub subcategories: Vec<RawSubcategory>,
}

#[derive(Debug)]
pub struct RawSubcategory {
    pub name: String,
    pub value: String,
    pub aliases: Vec<String>,
}

#[derive(Debug)]
pub struct EmployeeInfo {
    pub employee_wallets: Vec<EmployeeWallet>,
    pub settings: EmployeeSettings,
}

/// A benefit as it stands for the employee. `amount_bits` holds the bits of the
/// IEEE-754 double that the API sent as the remaining amount.
#[derive(Debug)]
pub struct EmployeeWallet {
    pub id: String,
    pub amount_bits: u64,
    pub company_wallet_configuration: EmployeeWalletConfig,
    pub is_employee_eligible: bool,
}

#[derive(Debug)]
pub struct EmployeeWalletConfig {
    pub wallet_name: String,
}

#[derive(Debug)]
pub struct EmployeeSettings {
    pub currency: String,
}

// ---------------------------------------------------------------------------
// Domain types
// ---------------------------------------------------------------------------

/// A benefit the employee can claim against. `remaining_amount_bits` holds the
/// bits of the IEEE-754 double for the remaining amount.
#[derive(Debug, Clone)]
pub struct Benefit {
    pub id: String,
    pub name: String,
    pub remaining_amount_bits: u64,
    pub remaining_amount_currency: String,
}

/// One way to file a claim under a benefit: a subcategory, possibly under one
/// of its aliases.
#[derive(Debug, Clone)]
pub struct Category {
    pub category_id: String,
    pub category_name: String,
    pub subcategory_name: String,
    pub subcategory_value: String,
    pub subcategory_alias: Option<String>,
    pub benefit_id: String,
}

/// A benefit together with the categories that can be claimed under it.
#[derive(Debug, Clone)]
pub struct BenefitWithCategories {
    pub benefit: Benefit,
    pub categories: Vec<Category>,
}

// ---------------------------------------------------------------------------
// Specifications
// ---------------------------------------------------------------------------

/// `i` is the first position in `s` whose element satisfies `p`.
pub open spec fn is_first_match<A>(s: Seq<A>, p: spec_fn(A) -> bool, i: int) -> bool {
    &&& 0 <= i < s.len()
    &&& p(s[i])
    &&& forall|j: int| 0 <= j < i ==> !p(#[trigger] s[j])
}

/// Some element of `s` satisfies `p`.
pub open spec fn has_match<A>(s: Seq<A>, p: spec_fn(A) -> bool) -> bool {
    exists|i: int| 0 <= i < s.len() && p(#[trigger] s[i])
}

/// The first position in `s` whose element satisfies `p` (meaningful when `has_match`).
pub open spec fn first_match<A>(s: Seq<A>, p: spec_fn(A) -> bool) -> int {
    choose|i: int| is_first_match(s, p, i)
}

/// An employee wallet that is eligible and carries the given benefit name.
pub open spec fn eligible_named(name: Seq<char>) -> spec_fn(EmployeeWallet) -> bool {
    |w: EmployeeWallet| w.is_employee_eligible && w.company_wallet_configuration.wallet_name@ == name
}

/// A company wallet configuration with the given benefit name.
pub open spec fn configuration_named(name: Seq<char>) -> spec_fn(CompanyWalletConfiguration) -> bool {
    |c: CompanyWalletConfiguration| c.wallet_name@ == name
}

/// The category entry for a subcategory, under an alias or under none.
pub open spec fn category_entry(
    cat: RawCategory,
    sub: RawSubcategory,
    alias: Option<String>,
    benefit_id: String,
) -> Category {
    Category {
        category_id: cat.id,
        category_name: cat.name,
        subcategory_name: sub.name,
        subcategory_value: sub.value,
        subcategory_alias: alias,
        benefit_id: benefit_id,
    }
}

/// The entries of one subcategory: first without an alias, then one per alias
/// in order.
pub open spec fn subcategory_entries(cat: RawCategory, sub: RawSubcategory, benefit_id: String) -> Seq<Category> {
    seq![category_entry(cat, sub, None, benefit_id)] + sub.aliases@.map_values(
        |a: String| category_entry(cat, sub, Some(a), benefit_id),
    )
}

/// The entries of one category: those of its subcategories in order.
pub open spec fn raw_category_entries(cat: RawCategory, benefit_id: String) -> Seq<Category> {
    cat.subcategories@.map_values(|s: RawSubcategory| subcategory_entries(cat, s, benefit_id)).flatten()
}

/// The entries of a benefit configuration: those of its categories in order.
pub open spec fn configuration_entries(conf: CompanyWalletConfiguration, benefit_id: String) -> Seq<Category> {
    conf.categories@.map_values(|c: RawCategory| raw_category_entries(c, benefit_id)).flatten()
}

/// The categories for a benefit name: those of the first configuration with that
/// name, attributed to the first eligible employee wallet with that name; `None`
/// where either is missing.
pub open spec fn categories_for_name(profile: ProfileResponse, name: Seq<char>) -> Option<Seq<Category>> {
    let ws = profile.data.employee.employee_wallets@;
    let cs = profile.data.company.company_wallet_configurations@;
    if has_match(ws, eligible_named(name)) && has_match(cs, configuration_named(name)) {
        let w = ws[first_match(ws, eligible_named(name))];
        let c = cs[first_match(cs, configuration_named(name))];
        Some(configuration_entries(c, w.id))
    } else {
        None
    }
}

/// The benefit that an eligible employee wallet stands for.
pub open spec fn benefit_of_wallet(w: EmployeeWallet, currency: String) -> Benefit {
    Benefit {
        id: w.id,
        name: w.company_wallet_configuration.wallet_name,
        remaining_amount_bits: w.amount_bits,
        remaining_amount_currency: currency,
    }
}

/// The benefits of a profile: one per eligible employee wallet, in order.
pub open spec fn benefits_of(profile: ProfileResponse) -> Seq<Benefit> {
    let currency = profile.data.employee.settings.currency;
    profile.data.employee.employee_wallets@.filter_map(
        |w: EmployeeWallet|
            if w.is_employee_eligible {
                Some(benefit_of_wallet(w, currency))
            } else {
                None
            },
    )
}

// ---------------------------------------------------------------------------
// Lemmas
// ---------------------------------------------------------------------------

/// The first match is unique, so `first_match` names it.
pub proof fn lemma_first_match_unique<A>(s: Seq<A>, p: spec_fn(A) -> bool, i: int)
    requires
        is_first_match(s, p, i),
    ensures
        first_match(s, p) == i,
        has_match(s, p),
{
    let k = first_match(s, p);
    assert(is_first_match(s, p, k));
    if k < i {
        assert(!p(s[k]));
    } else if i < k {
        assert(!p(s[i]));
    }
}

proof fn lemma_take_push<A>(s: Seq<A>, i: int)
    requires
        0 <= i < s.len(),
    ensures
        s.take(i + 1) == s.take(i).push(s[i]),
{
    assert(s.take(i + 1) =~= s.take(i).push(s[i]));
}

/// Every entry of a benefit configuration carries the benefit id it was
/// produced for, and comes from one of the configuration's categories.
pub proof fn lemma_configuration_entries_attributed(conf: CompanyWalletConfiguration, benefit_id: String)
    ensures
        forall|k: int| 0 <= k < configuration_entries(conf, benefit_id).len() ==> {
            &&& (#[trigger] configuration_entries(conf, benefit_id)[k]).benefit_id == benefit_id
            &&& exists|c: int, j: int| 0 <= c < conf.categories@.len()
                && 0 <= j < conf.categories@[c].subcategories@.len()
                && conf.categories@[c].id == configuration_entries(conf, benefit_id)[k].category_id
                && conf.categories@[c].name == configuration_entries(conf, benefit_id)[k].category_name
                && conf.categories@[c].subcategories@[j].name == configuration_entries(conf, benefit_id)[k].subcategory_name
                && conf.categories@[c].subcategories@[j].value == configuration_entries(conf, benefit_id)[k].subcategory_value
        },
{
    let f = |c: RawCategory| raw_category_entries(c, benefit_id);
    let cats = conf.categories@;
    lemma_flatten_attributed(cats, f, benefit_id, cats.len() as int);
    assert(cats.take(cats.len() as int) =~= cats);
}

proof fn lemma_flatten_attributed(
    cats: Seq<RawCategory>,
    f: spec_fn(RawCategory) -> Seq<Category>,
    benefit_id: String,
    n: int,
)
    requires
        0 <= n <= cats.len(),
        f == (|c: RawCategory| raw_category_entries(c, benefit_id)),
    ensures
        forall|k: int| 0 <= k < cats.take(n).map_values(f).flatten().len() ==> {
            &&& (#[trigger] cats.take(n).map_values(f).flatten()[k]).benefit_id == benefit_id
            &&& exists|c: int, j: int| 0 <= c < n && 0 <= j < cats[c].subcategories@.len()
                && cats[c].id == cats.take(n).map_values(f).flatten()[k].category_id
                && cats[c].name == cats.take(n).map_values(f).flatten()[k].category_name
                && cats[c].subcategories@[j].name == cats.take(n).map_values(f).flatten()[k].subcategory_name
                && cats[c].subcategories@[j].value == cats.take(n).map_values(f).flatten()[k].subcategory_value
        },
    decreases n,
{
    if n > 0 {
        lemma_flatten_attributed(cats, f, benefit_id, n - 1);
        let m = cats.take(n - 1).map_values(f);
        assert(cats.take(n).map_values(f) =~= m.push(f(cats[n - 1])));
        m.lemma_flatten_push(f(cats[n - 1]));
        lemma_category_entries_attributed(cats[n - 1], benefit_id);
        let all = cats.take(n).map_values(f).flatten();
        assert forall|k: int| 0 <= k < all.len() implies {
            &&& (#[trigger] all[k]).benefit_id == benefit_id
            &&& exists|c: int, j: int| 0 <= c < n && 0 <= j < cats[c].subcategories@.len()
                && cats[c].id == all[k].category_id && cats[c].name == all[k].category_name
                && cats[c].subcategories@[j].name == all[k].subcategory_name
                && cats[c].subcategories@[j].value == all[k].subcategory_value
        } by {
            if k < m.flatten().len() {
                assert(all[k] == m.flatten()[k]);
                let (c, j) = choose|c: int, j: int| 0 <= c < n - 1 && 0 <= j < cats[c].subcategories@.len()
                    && cats[c].id == m.flatten()[k].category_id
                    && cats[c].name == m.flatten()[k].category_name
                    && cats[c].subcategories@[j].name == m.flatten()[k].subcategory_name
                    && cats[c].subcategories@[j].value == m.flatten()[k].subcategory_value;
                assert(0 <= c < n);
            } else {
                let e = f(cats[n - 1])[k - m.flatten().len()];
                assert(all[k] == e);
                let j = choose|j: int| #![trigger cats[n - 1].subcategories@[j]] 0 <= j < cats[n - 1].subcategories@.len()
                    && cats[n - 1].subcategories@[j].name == e.subcategory_name
                    && cats[n - 1].subcategories@[j].value == e.subcategory_value;
                assert(0 <= n - 1 < n);
            }
        }
    } else {
        assert(cats.take(n).map_values(f) =~= Seq::<Seq<Category>>::empty());
    }
}

/// The entries of one subcategory: one without an alias and then one per alias
/// in order; each carries the subcategory's own name and value, its category's
/// id and name, and the benefit id.
pub proof fn lemma_subcategory_entries_fields(cat: RawCategory, sub: RawSubcategory, benefit_id: String)
    ensures
        subcategory_entries(cat, sub, benefit_id).len() == 1 + sub.aliases@.len(),
        forall|k: int| 0 <= k < subcategory_entries(cat, sub, benefit_id).len() ==> {
            let e = #[trigger] subcategory_entries(cat, sub, benefit_id)[k];
            &&& e.subcategory_name == sub.name
            &&& e.subcategory_value == sub.value
            &&& e.category_id == cat.id
            &&& e.category_name == cat.name
            &&& e.benefit_id == benefit_id
            &&& e.subcategory_alias == (if k == 0 { None } else { Some(sub.aliases@[k - 1]) })
        },
{
    let es = subcategory_entries(cat, sub, benefit_id);
    let tail = sub.aliases@.map_values(|a: String| category_entry(cat, sub, Some(a), benefit_id));
    assert forall|k: int| 0 <= k < es.len() implies {
        let e = #[trigger] es[k];
        &&& e.subcategory_name == sub.name
        &&& e.subcategory_value == sub.value
        &&& e.category_id == cat.id
        &&& e.category_name == cat.name
        &&& e.benefit_id == benefit_id
        &&& e.subcategory_alias == (if k == 0 { None } else { Some(sub.aliases@[k - 1]) })
    } by {
        if k > 0 {
            assert(es[k] == tail[k - 1]);
        }
    }
}

proof fn lemma_category_entries_attributed(cat: RawCategory, benefit_id: String)
    ensures
        forall|k: int| 0 <= k < raw_category_entries(cat, benefit_id).len() ==> {
            &&& (#[trigger] raw_category_entries(cat, benefit_id)[k]).benefit_id == benefit_id
            &&& raw_category_entries(cat, benefit_id)[k].category_id == cat.id
            &&& raw_category_entries(cat, benefit_id)[k].category_name == cat.name
            &&& exists|j: int| 0 <= j < cat.subcategories@.len()
                && cat.subcategories@[j].name == raw_category_entries(cat, benefit_id)[k].subcategory_name
                && cat.subcategories@[j].value == raw_category_entries(cat, benefit_id)[k].subcategory_value
        },
{
    let f = |s: RawSubcategory| subcategory_entries(cat, s, benefit_id);
    let subs = cat.subcategories@;
    lemma_subcategories_attributed(cat, subs, f, benefit_id, subs.len() as int);
    assert(subs.take(subs.len() as int) =~= subs);
}

proof fn lemma_subcategories_attributed(
    cat: RawCategory,
    subs: Seq<RawSubcategory>,
    f: spec_fn(RawSubcategory) -> Seq<Category>,
    benefit_id: String,
    n: int,
)
    requires
        0 <= n <= subs.len(),
        f == (|s: RawSubcategory| subcategory_entries(cat, s, benefit_id)),
    ensures
        forall|k: int| 0 <= k < subs.take(n).map_values(f).flatten().len() ==> {
            &&& (#[trigger] subs.take(n).map_values(f).flatten()[k]).benefit_id == benefit_id
            &&& subs.take(n).map_values(f).flatten()[k].category_id == cat.id
            &&& subs.take(n).map_values(f).flatten()[k].category_name == cat.name
            &&& exists|j: int| 0 <= j < n
                && subs[j].name == subs.take(n).map_values(f).flatten()[k].subcategory_name
                && subs[j].value == subs.take(n).map_values(f).flatten()[k].subcategory_value
        },
    decreases n,
{
    if n > 0 {
        lemma_subcategories_attributed(cat, subs, f, benefit_id, n - 1);
        let m = subs.take(n - 1).map_values(f);
        assert(subs.take(n).map_values(f) =~= m.push(f(subs[n - 1])));
        m.lemma_flatten_push(f(subs[n - 1]));
        let all = subs.take(n).map_values(f).flatten();
        let last = f(subs[n - 1]);
        lemma_subcategory_entries_fields(cat, subs[n - 1], benefit_id);
        assert forall|k: int| 0 <= k < all.len() implies {
            &&& (#[trigger] all[k]).benefit_id == benefit_id
            &&& all[k].category_id == cat.id
            &&& all[k].category_name == cat.name
            &&& exists|j: int| 0 <= j < n && subs[j].name == all[k].subcategory_name
                && subs[j].value == all[k].subcategory_value
        } by {
            if k < m.flatten().len() {
                assert(all[k] == m.flatten()[k]);
                let j = choose|j: int| 0 <= j < n - 1 && subs[j].name == m.flatten()[k].subcategory_name
                    && subs[j].value == m.flatten()[k].subcategory_value;
                assert(0 <= j < n);
            } else {
                let j = k - m.flatten().len();
                assert(all[k] == last[j]);
                assert(0 <= n - 1 < n);
            }
        }
    } else {
        assert(subs.take(n).map_values(f) =~= Seq::<Seq<Category>>::empty());
    }
}

/// Every category found for a benefit name carries the id of the first eligible
/// employee wallet with that name.
pub proof fn lemma_categories_carry_wallet_id(profile: ProfileResponse, name: Seq<char>)
    requires
        categories_for_name(profile, name) is Some,
    ensures
        forall|k: int| 0 <= k < categories_for_name(profile, name).unwrap().len() ==>
            (#[trigger] categories_for_name(profile, name).unwrap()[k]).benefit_id
                == profile.data.employee.employee_wallets@[first_match(
                    profile.data.employee.employee_wallets@,
                    eligible_named(name),
                )].id,
{
    let ws = profile.data.employee.employee_wallets@;
    let cs = profile.data.company.company_wallet_configurations@;
    let w = ws[first_match(ws, eligible_named(name))];
    let c = cs[first_match(cs, configuration_named(name))];
    lemma_configuration_entries_attributed(c, w.id);
}

/// The categories of a benefit name exist exactly when some eligible employee
/// wallet and some benefit configuration carry that name. They are then taken
/// from the first configuration with the name, each from one of its categories'
/// subcategories, and carry the id of the first eligible wallet with the name.
pub proof fn lemma_categories_source(profile: ProfileResponse, name: Seq<char>)
    ensures
        categories_for_name(profile, name) is Some <==> (
            (exists|i: int| 0 <= i < profile.data.employee.employee_wallets@.len()
                && (#[trigger] profile.data.employee.employee_wallets@[i]).is_employee_eligible
                && profile.data.employee.employee_wallets@[i].company_wallet_configuration.wallet_name@ == name)
            && (exists|c: int| 0 <= c < profile.data.company.company_wallet_configurations@.len()
                && (#[trigger] profile.data.company.company_wallet_configurations@[c]).wallet_name@ == name)
        ),
        categories_for_name(profile, name) matches Some(cats) ==> exists|i: int, c: int|
            #![trigger profile.data.employee.employee_wallets@[i], profile.data.company.company_wallet_configurations@[c]]
        {
            let ws = profile.data.employee.employee_wallets@;
            let cs = profile.data.company.company_wallet_configurations@;
            &&& 0 <= i < ws.len() && 0 <= c < cs.len()
            &&& ws[i].is_employee_eligible && ws[i].company_wallet_configuration.wallet_name@ == name
            &&& forall|j: int| 0 <= j < i ==> !((#[trigger] ws[j]).is_employee_eligible
                && ws[j].company_wallet_configuration.wallet_name@ == name)
            &&& cs[c].wallet_name@ == name
            &&& forall|d: int| 0 <= d < c ==> (#[trigger] cs[d]).wallet_name@ != name
            &&& forall|k: int| 0 <= k < cats.len() ==> {
                &&& (#[trigger] cats[k]).benefit_id == ws[i].id
                &&& exists|g: int, j: int| 0 <= g < cs[c].categories@.len()
                    && 0 <= j < cs[c].categories@[g].subcategories@.len()
                    && cs[c].categories@[g].id == cats[k].category_id
                    && cs[c].categories@[g].name == cats[k].category_name
                    && cs[c].categories@[g].subcategories@[j].name == cats[k].subcategory_name
                    && cs[c].categories@[g].subcategories@[j].value == cats[k].subcategory_value
            }
        },
{
    let ws = profile.data.employee.employee_wallets@;
    let cs = profile.data.company.company_wallet_configurations@;
    let pw = eligible_named(name);
    let pc = configuration_named(name);
    if has_match(ws, pw) && has_match(cs, pc) {
        let i0 = choose|i: int| 0 <= i < ws.len() && pw(#[trigger] ws[i]);
        let c0 = choose|c: int| 0 <= c < cs.len() && pc(#[trigger] cs[c]);
        lemma_first_match_exists(ws, pw, i0);
        lemma_first_match_exists(cs, pc, c0);
        let i = first_match(ws, pw);
        let c = first_match(cs, pc);
        assert(is_first_match(ws, pw, i));
        assert(is_first_match(cs, pc, c));
        lemma_configuration_entries_attributed(cs[c], ws[i].id);
        assert forall|j: int| 0 <= j < i implies !((#[trigger] ws[j]).is_employee_eligible
            && ws[j].company_wallet_configuration.wallet_name@ == name) by {
            assert(!pw(ws[j]));
        }
        assert forall|d: int| 0 <= d < c implies (#[trigger] cs[d]).wallet_name@ != name by {
            assert(!pc(cs[d]));
        }
    } else {
        if has_match(ws, pw) {
            assert forall|c: int| 0 <= c < cs.len() implies (#[trigger] cs[c]).wallet_name@ != name by {
                assert(!pc(cs[c]));
            }
        } else {
            assert forall|i: int| 0 <= i < ws.len() implies !((#[trigger] ws[i]).is_employee_eligible
                && ws[i].company_wallet_configuration.wallet_name@ == name) by {
                assert(!pw(ws[i]));
            }
        }
    }
}

/// Where some element matches, a first matching element exists.
proof fn lemma_first_match_exists<A>(s: Seq<A>, p: spec_fn(A) -> bool, i: int)
    requires
        0 <= i < s.len(),
        p(s[i]),
    ensures
        is_first_match(s, p, first_match(s, p)),
    decreases i,
{
    if forall|j: int| 0 <= j < i ==> !p(#[trigger] s[j]) {
        assert(is_first_match(s, p, i));
    } else {
        let j = choose|j: int| 0 <= j < i && !!p(#[trigger] s[j]);
        lemma_first_match_exists(s, p, j);
    }
}

/// Each benefit of a profile stands for an eligible employee wallet (its id,
/// name and amount) and is in the employee's currency; there are as many
/// benefits as eligible wallets.
pub proof fn lemma_benefits_from_eligible_wallets(profile: ProfileResponse)
    ensures
        forall|i: int| 0 <= i < benefits_of(profile).len() ==> {
            &&& (#[trigger] benefits_of(profile)[i]).remaining_amount_currency
                == profile.data.employee.settings.currency
            &&& exists|j: int| 0 <= j < profile.data.employee.employee_wallets@.len()
                && (#[trigger] profile.data.employee.employee_wallets@[j]).is_employee_eligible
                && benefits_of(profile)[i].id == profile.data.employee.employee_wallets@[j].id
                && benefits_of(profile)[i].name
                    == profile.data.employee.employee_wallets@[j].company_wallet_configuration.wallet_name
                && benefits_of(profile)[i].remaining_amount_bits
                    == profile.data.employee.employee_wallets@[j].amount_bits
        },
        benefits_of(profile).len() == profile.data.employee.employee_wallets@.filter(
            |w: EmployeeWallet| w.is_employee_eligible,
        ).len(),
{
    let ws = profile.data.employee.employee_wallets@;
    let currency = profile.data.employee.settings.currency;
    let f = |w: EmployeeWallet|
        if w.is_employee_eligible {
            Some(benefit_of_wallet(w, currency))
        } else {
            None
        };
    lemma_filter_map_wallets(ws, f, currency);
}

proof fn lemma_filter_map_wallets(
    ws: Seq<EmployeeWallet>,
    f: spec_fn(EmployeeWallet) -> Option<Benefit>,
    currency: String,
)
    requires
        f == (|w: EmployeeWallet|
            if w.is_employee_eligible {
                Some(benefit_of_wallet(w, currency))
            } else {
                None
            }),
    ensures
        forall|i: int| 0 <= i < ws.filter_map(f).len() ==> {
            &&& (#[trigger] ws.filter_map(f)[i]).remaining_amount_currency == currency
            &&& exists|j: int| 0 <= j < ws.len() && (#[trigger] ws[j]).is_employee_eligible
                && ws.filter_map(f)[i] == benefit_of_wallet(ws[j], currency)
        },
        ws.filter_map(f).len() == ws.filter(|w: EmployeeWallet| w.is_employee_eligible).len(),
    decreases ws.len(),
{
    reveal(Seq::filter);
    if ws.len() > 0 {
        let front = ws.drop_last();
        lemma_filter_map_wallets(front, f, currency);
        let r = ws.filter_map(f);
        let rf = front.filter_map(f);
        assert forall|i: int| 0 <= i < r.len() implies {
            &&& (#[trigger] r[i]).remaining_amount_currency == currency
            &&& exists|j: int| 0 <= j < ws.len() && (#[trigger] ws[j]).is_employee_eligible
                && r[i] == benefit_of_wallet(ws[j], currency)
        } by {
            if i < rf.len() {
                assert(r[i] == rf[i]);
                let j = choose|j: int| 0 <= j < front.len() && (#[trigger] front[j]).is_employee_eligible
                    && rf[i] == benefit_of_wallet(front[j], currency);
                assert(ws[j] == front[j]);
            } else {
                assert(ws[ws.len() - 1] == ws.last());
            }
        }
    }
}

// ---------------------------------------------------------------------------
// Operations
// ---------------------------------------------------------------------------

fn copy_string(s: &String) -> (r: String)
    ensures
        r == *s,
{
    s.clone()
}

fn find_eligible_wallet(ws: &Vec<EmployeeWallet>, name: &String) -> (r: Option<usize>)
    ensures
        match r {
            Some(i) => is_first_match(ws@, eligible_named(name@), i as int),
            None => !has_match(ws@, eligible_named(name@)),
        },
{
    let ghost p = eligible_named(name@);
    let mut i: usize = 0;
    while i < ws.len()
        invariant
            i <= ws.len(),
            p == eligible_named(name@),
            forall|j: int| 0 <= j < i ==> !p(#[trigger] ws@[j]),
        decreases ws.len() - i,
    {
        let w = &ws[i];
        if w.is_employee_eligible && w.company_wallet_configuration.wallet_name == *name {
            return Some(i);
        }
        i = i + 1;
    }
    None
}

fn find_configuration(cs: &Vec<CompanyWalletConfiguration>, name: &String) -> (r: Option<usize>)
    ensures
        match r {
            Some(i) => is_first_match(cs@, configuration_named(name@), i as int),
            None => !has_match(cs@, configuration_named(name@)),
        },
{
    let ghost p = configuration_named(name@);
    let mut i: usize = 0;
    while i < cs.len()
        invariant
            i <= cs.len(),
            p == configuration_named(name@),
            forall|j: int| 0 <= j < i ==> !p(#[trigger] cs@[j]),
        decreases cs.len() - i,
    {
        if cs[i].wallet_name == *name {
            return Some(i);
        }
        i = i + 1;
    }
    None
}

fn make_entry(cat: &RawCategory, sub: &RawSubcategory, alias: Option<String>, benefit_id: &String) -> (r: Category)
    ensures
        r == category_entry(*cat, *sub, alias, *benefit_id),
        r.subcategory_name == sub.name,
        r.subcategory_value == sub.value,
        r.subcategory_alias == alias,
        r.category_id == cat.id,
        r.category_name == cat.name,
        r.benefit_id == *benefit_id,
{
    Category {
        category_id: copy_string(&cat.id),
        category_name: copy_string(&cat.name),
        subcategory_name: copy_string(&sub.name),
        subcategory_value: copy_string(&sub.value),
        subcategory_alias: alias,
        benefit_id: copy_string(benefit_id),
    }
}

fn push_subcategory_entries(out: &mut Vec<Category>, cat: &RawCategory, sub: &RawSubcategory, benefit_id: &String)
    ensures
        final(out)@ == old(out)@ + subcategory_entries(*cat, *sub, *benefit_id),
{
    let ghost start = out@;
    let ghost f = |a: String| category_entry(*cat, *sub, Some(a), *benefit_id);
    out.push(make_entry(cat, sub, None, benefit_id));
    let mut k: usize = 0;
    while k < sub.aliases.len()
        invariant
            k <= sub.aliases.len(),
            f == (|a: String| category_entry(*cat, *sub, Some(a), *benefit_id)),
            out@ == start + seq![category_entry(*cat, *sub, None, *benefit_id)]
                + sub.aliases@.take(k as int).map_values(f),
        decreases sub.aliases.len() - k,
    {
        let alias = copy_string(&sub.aliases[k]);
        out.push(make_entry(cat, sub, Some(alias), benefit_id));
        proof {
            lemma_take_push(sub.aliases@, k as int);
            assert(sub.aliases@.take(k + 1).map_values(f) =~= sub.aliases@.take(k as int).map_values(f).push(
                f(sub.aliases@[k as int]),
            ));
        }
        k = k + 1;
    }
    assert(sub.aliases@.take(k as int) =~= sub.aliases@);
    assert(out@ =~= start + subcategory_entries(*cat, *sub, *benefit_id));
}

fn push_category_entries(out: &mut Vec<Category>, cat: &RawCategory, benefit_id: &String)
    ensures
        final(out)@ == old(out)@ + raw_category_entries(*cat, *benefit_id),
{
    let ghost start = out@;
    let ghost f = |s: RawSubcategory| subcategory_entries(*cat, s, *benefit_id);
    let mut j: usize = 0;
    while j < cat.subcategories.len()
        invariant
            j <= cat.subcategories.len(),
            f == (|s: RawSubcategory| subcategory_entries(*cat, s, *benefit_id)),
            out@ == start + cat.subcategories@.take(j as int).map_values(f).flatten(),
        decreases cat.subcategories.len() - j,
    {
        let ghost before = out@;
        push_subcategory_entries(out, cat, &cat.subcategories[j], benefit_id);
        proof {
            let m = cat.subcategories@.take(j as int).map_values(f);
            lemma_take_push(cat.subcategories@, j as int);
            assert(cat.subcategories@.take(j + 1).map_values(f) =~= m.push(f(cat.subcategories@[j as int])));
            m.lemma_flatten_push(f(cat.subcategories@[j as int]));
            assert(out@ =~= start + cat.subcategories@.take(j + 1).map_values(f).flatten());
        }
        j = j + 1;
    }
    assert(cat.subcategories@.take(j as int) =~= cat.subcategories@);
}

fn configuration_categories(conf: &CompanyWalletConfiguration, benefit_id: &String) -> (r: Vec<Category>)
    ensures
        r@ == configuration_entries(*conf, *benefit_id),
{
    let ghost f = |c: RawCategory| raw_category_entries(c, *benefit_id);
    let mut out: Vec<Category> = Vec::new();
    let mut i: usize = 0;
    while i < conf.categories.len()
        invariant
            i <= conf.categories.len(),
            f == (|c: RawCategory| raw_category_entries(c, *benefit_id)),
            out@ == conf.categories@.take(i as int).map_values(f).flatten(),
        decreases conf.categories.len() - i,
    {
        push_category_entries(&mut out, &conf.categories[i], benefit_id);
        proof {
            let m = conf.categories@.take(i as int).map_values(f);
            lemma_take_push(conf.categories@, i as int);
            assert(conf.categories@.take(i + 1).map_values(f) =~= m.push(f(conf.categories@[i as int])));
            m.lemma_flatten_push(f(conf.categories@[i as int]));
        }
        i = i + 1;
    }
    assert(conf.categories@.take(i as int) =~= conf.categories@);
    out
}

/// The categories that can be claimed under the eligible benefit with the given
/// name, read from the employee's profile. Each subcategory gives one entry
/// without an alias and then one per alias; every entry carries the id of the
/// employee's wallet for that benefit.
pub fn get_categories_for_benefit_name(profile: &ProfileResponse, benefit_name: &str) -> (r: Result<
    Vec<Category>,
    FormaError,
>)
    ensures
        match r {
            Ok(cats) => categories_for_name(*profile, benefit_name@) == Some(cats@),
            Err(e) => categories_for_name(*profile, benefit_name@) is None
                && e@ == FormaErrorView::BenefitNotFound(benefit_name@),
        },
{
    let name = String::from_str(benefit_name);
    let ws = &profile.data.employee.employee_wallets;
    let cs = &profile.data.company.company_wallet_configurations;
    let wi = match find_eligible_wallet(ws, &name) {
        Some(i) => i,
        None => return Err(FormaError::BenefitNotFound(name)),
    };
    let ci = match find_configuration(cs, &name) {
        Some(i) => i,
        None => return Err(FormaError::BenefitNotFound(name)),
    };
    proof {
        lemma_first_match_unique(ws@, eligible_named(name@), wi as int);
        lemma_first_match_unique(cs@, configuration_named(name@), ci as int);
    }
    let benefit_id = copy_string(&ws[wi].id);
    Ok(configuration_categories(&cs[ci], &benefit_id))
}


fn wallet_benefit(w: &EmployeeWallet, currency: &String) -> (r: Benefit)
    ensures
        r == benefit_of_wallet(*w, *currency),
{
    Benefit {
        id: copy_string(&w.id),
        name: copy_string(&w.company_wallet_configuration.wallet_name),
        remaining_amount_bits: w.amount_bits,
        remaining_amount_currency: copy_string(currency),
    }
}

/// The benefits of the employee: one per eligible wallet, in the profile's
/// order, each in the employee's currency.
pub fn get_benefits(profile: &ProfileResponse) -> (r: Vec<Benefit>)
    ensures
        r@ == benefits_of(*profile),
{
    let ws = &profile.data.employee.employee_wallets;
    let currency = &profile.data.employee.settings.currency;
    let ghost f = |w: EmployeeWallet|
        if w.is_employee_eligible {
            Some(benefit_of_wallet(w, *currency))
        } else {
            None
        };
    let mut out: Vec<Benefit> = Vec::new();
    let mut i: usize = 0;
    while i < ws.len()
        invariant
            i <= ws.len(),
            *currency == profile.data.employee.settings.currency,
            *ws == profile.data.employee.employee_wallets,
            f == (|w: EmployeeWallet|
                if w.is_employee_eligible {
                    Some(benefit_of_wallet(w, *currency))
                } else {
                    None
                }),
            out@ == ws@.take(i as int).filter_map(f),
        decreases ws.len() - i,
    {
        let w = &ws[i];
        proof {
            lemma_take_push(ws@, i as int);
            let t = ws@.take(i + 1);
            assert(t.drop_last() =~= ws@.take(i as int));
            assert(t.last() == ws@[i as int]);
        }
        if w.is_employee_eligible {
            out.push(wallet_benefit(w, currency));
        }
        i = i + 1;
    }
    assert(ws@.take(i as int) =~= ws@);
    out
}

/// The categories of every benefit in `benefits`, or `None` where one is missing.
pub open spec fn all_categories_found(profile: ProfileResponse, benefits: Seq<Benefit>) -> bool {
    forall|i: int| 0 <= i < benefits.len() ==> (#[trigger] categories_for_name(profile, benefits[i].name@)) is Some
}

/// The benefits of the employee, each with its categories. Fails, naming the
/// first benefit concerned, where a benefit has no configuration of its name.
pub fn get_benefits_with_categories(profile: &ProfileResponse) -> (r: Result<
    Vec<BenefitWithCategories>,
    FormaError,
>)
    ensures
        match r {
            Ok(v) => {
                &&& all_categories_found(*profile, benefits_of(*profile))
                &&& v@.len() == benefits_of(*profile).len()
                &&& forall|i: int| 0 <= i < v@.len() ==> {
                    &&& (#[trigger] v@[i]).benefit == benefits_of(*profile)[i]
                    &&& categories_for_name(*profile, v@[i].benefit.name@) == Some(v@[i].categories@)
                }
            },
            Err(e) => exists|k: int| {
                &&& 0 <= k < benefits_of(*profile).len()
                &&& all_categories_found(*profile, benefits_of(*profile).take(k))
                &&& categories_for_name(*profile, #[trigger] benefits_of(*profile)[k].name@) is None
                &&& e@ == FormaErrorView::BenefitNotFound(benefits_of(*profile)[k].name@)
            },
        },
{
    let benefits = get_benefits(profile);
    let ghost bs = benefits@;
    let mut out: Vec<BenefitWithCategories> = Vec::with_capacity(benefits.len());
    let mut i: usize = 0;
    while i < benefits.len()
        invariant
            bs == benefits@,
            bs == benefits_of(*profile),
            i <= benefits.len(),
            out@.len() == i,
            all_categories_found(*profile, bs.take(i as int)),
            forall|j: int| 0 <= j < i ==> {
                &&& (#[trigger] out@[j]).benefit == bs[j]
                &&& categories_for_name(*profile, out@[j].benefit.name@) == Some(out@[j].categories@)
            },
        decreases benefits.len() - i,
    {
        let b = &benefits[i];
        match get_categories_for_benefit_name(profile, b.name.as_str()) {
            Ok(categories) => {
                let benefit = Benefit {
                    id: copy_string(&b.id),
                    name: copy_string(&b.name),
                    remaining_amount_bits: b.remaining_amount_bits,
                    remaining_amount_currency: copy_string(&b.remaining_amount_currency),
                };
                out.push(BenefitWithCategories { benefit, categories });
                proof {
                    assert forall|j: int| 0 <= j < i + 1 implies (#[trigger] categories_for_name(
                        *profile,
                        bs.take(i + 1)[j].name@,
                    )) is Some by {
                        if j < i {
                            assert(bs.take(i + 1)[j] == bs.take(i as int)[j]);
                        }
                    }
                }
            },
            Err(e) => {
                return Err(e);
            },
        }
        i = i + 1;
    }
    proof {
        assert(bs.take(i as int) =~= bs);
    }
    Ok(out)
}

} // verus!
