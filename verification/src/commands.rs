//! Decisions and messages of the command-line commands: writing the CSV
//! template, validating a CSV of claims, and submitting it.

use vstd::prelude::*;
use crate::forma::BenefitWithCategories;
use crate::text::{decimal, u64_to_decimal};

verus! {

/// The header line of a fresh claims CSV.
pub const TEMPLATE_CSV: &'static str = "benefit,category,merchant,amount,description,purchaseDate,receiptPath\n";

/// Shown when the CSV holds no claims.
pub const EMPTY_CSV_MESSAGE: &'static str = "Your CSV doesn't seem to contain any claims. Have you filled out the template?";

/// Shown when the account has no benefits to validate against.
pub const NO_BENEFITS_MESSAGE: &'static str = "Your account does not have any benefits, so claims cannot be validated.";

/// Shown for each claim that a dry run does not submit.
pub const DRY_RUN_MESSAGE: &'static str = "Dry run: skipping claim submission.";

/// The error for a claim that lacks benefit or category when nothing can infer them.
pub const UNCLASSIFIED_CLAIM_MESSAGE: &'static str = "You must either fill out the `benefit` and `category` columns, or specify an OpenAI API key or GitHub token.";

/// How a claim from the CSV is handled.
#[derive(Debug, Clone, Copy, PartialEq, Eq, Structural)]
pub enum ClaimRoute {
    /// Benefit and category are both filled in: use them.
    Given,
    /// One of them is missing but a language model can infer them.
    Infer,
    /// One of them is missing and nothing can infer them: the claim fails.
    Unclassified,
}

/// Which command reports progress.
#[derive(Debug, Clone, Copy, PartialEq, Eq, Structural)]
pub enum Activity {
    Submitting,
    Validating,
}

/// The route of a claim with the given benefit and category columns.
pub open spec fn route_of(benefit: Seq<char>, category: Seq<char>, can_infer: bool) -> ClaimRoute {
    if benefit.len() > 0 && category.len() > 0 {
        ClaimRoute::Given
    } else if can_infer {
        ClaimRoute::Infer
    } else {
        ClaimRoute::Unclassified
    }
}

/// Decides how a claim is handled; `can_infer` holds when an OpenAI API key or a
/// GitHub token was given.
pub fn claim_route(benefit: &str, category: &str, can_infer: bool) -> (r: ClaimRoute)
    ensures
        r == route_of(benefit@, category@, can_infer),
        r is Given <==> (benefit@.len() > 0 && category@.len() > 0),
        r is Infer <==> (!(benefit@.len() > 0 && category@.len() > 0) && can_infer),
        r is Unclassified <==> (!(benefit@.len() > 0 && category@.len() > 0) && !can_infer),
{
    if benefit.unicode_len() > 0 && category.unicode_len() > 0 {
        ClaimRoute::Given
    } else if can_infer {
        ClaimRoute::Infer
    } else {
        ClaimRoute::Unclassified
    }
}

/// A claim's columns are used as given only when both the benefit and the
/// category are filled in; when either is empty the claim is inferred if that
/// is possible and unclassified otherwise.
pub proof fn lemma_route_needs_both_columns(benefit: Seq<char>, category: Seq<char>, can_infer: bool)
    ensures
        route_of(benefit, category, can_infer) is Given <==> (benefit.len() > 0 && category.len() > 0),
        route_of(benefit, category, can_infer) is Infer <==> (!(benefit.len() > 0 && category.len() > 0)
            && can_infer),
        route_of(benefit, category, can_infer) is Unclassified <==> (!(benefit.len() > 0 && category.len() > 0)
            && !can_infer),
        benefit.len() == 0 ==> !(route_of(benefit, category, can_infer) is Given),
        category.len() == 0 ==> !(route_of(benefit, category, can_infer) is Given),
{
}

/// `n/total (row r)` for the claim at `index`: counting from one, and rows from
/// two, since the first row of the CSV is its header.
pub open spec fn position_text(index: nat, total: nat) -> Seq<char> {
    decimal(index + 1) + "/"@ + decimal(total)
}

pub open spec fn row_text(index: nat) -> Seq<char> {
    " (row "@ + decimal(index + 2) + ")"@
}

fn push_decimal(s: &mut String, n: usize)
    ensures
        final(s)@ == old(s)@ + decimal(n as nat),
{
    let d = u64_to_decimal(n as u64);
    s.append(d.as_str());
}

/// The progress line printed before a claim is handled.
pub open spec fn progress_text(activity: Activity, index: nat, total: nat) -> Seq<char> {
    (match activity {
        Activity::Submitting => "Submitting claim "@,
        Activity::Validating => "Validating claim "@,
    }) + position_text(index, total) + row_text(index)
}

/// The line printed before the claim at `index` of `total` is handled.
pub fn progress_message(activity: Activity, index: usize, total: usize) -> (r: String)
    requires
        index + 2 <= usize::MAX,
    ensures
        r@ == progress_text(activity, index as nat, total as nat),
{
    let mut s = match activity {
        Activity::Submitting => String::from_str("Submitting claim "),
        Activity::Validating => String::from_str("Validating claim "),
    };
    push_decimal(&mut s, index + 1);
    s.append("/");
    push_decimal(&mut s, total);
    s.append(" (row ");
    push_decimal(&mut s, index + 2);
    s.append(")");
    s
}

/// The line printed when a claim was handled without error.
pub open spec fn success_text(activity: Activity, index: nat, total: nat) -> Seq<char> {
    (match activity {
        Activity::Submitting => "Successfully submitted claim "@,
        Activity::Validating => "Validated claim "@,
    }) + position_text(index, total) + row_text(index)
}

/// The line printed when the claim at `index` of `total` succeeded.
pub fn success_message(activity: Activity, index: usize, total: usize) -> (r: String)
    requires
        index + 2 <= usize::MAX,
    ensures
        r@ == success_text(activity, index as nat, total as nat),
{
    let mut s = match activity {
        Activity::Submitting => String::from_str("Successfully submitted claim "),
        Activity::Validating => String::from_str("Validated claim "),
    };
    push_decimal(&mut s, index + 1);
    s.append("/");
    push_decimal(&mut s, total);
    s.append(" (row ");
    push_decimal(&mut s, index + 2);
    s.append(")");
    s
}

/// The line printed when a claim failed with the error text `error`.
pub open spec fn failure_text(activity: Activity, index: nat, total: nat, error: Seq<char>) -> Seq<char> {
    (match activity {
        Activity::Submitting => "Error submitting claim "@,
        Activity::Validating => "Error validating claim "@,
    }) + position_text(index, total) + ": "@ + error + row_text(index)
}

/// The line printed when the claim at `index` of `total` failed with `error`.
pub fn failure_message(activity: Activity, index: usize, total: usize, error: &str) -> (r: String)
    requires
        index + 2 <= usize::MAX,
    ensures
        r@ == failure_text(activity, index as nat, total as nat, error@),
{
    let mut s = match activity {
        Activity::Submitting => String::from_str("Error submitting claim "),
        Activity::Validating => String::from_str("Error validating claim "),
    };
    push_decimal(&mut s, index + 1);
    s.append("/");
    push_decimal(&mut s, total);
    s.append(": ");
    s.append(error);
    s.append(" (row ");
    push_decimal(&mut s, index + 2);
    s.append(")");
    s
}

/// The note for a claim whose benefit or category will have to be inferred.
pub open spec fn inference_note_text(index: nat, total: nat) -> Seq<char> {
    "Claim "@ + position_text(index, total) + row_text(index)
        + " doesn't have a benefit and/or category. This will have to be inferred when the claims are submitted."@
}

/// The note printed when the claim at `index` lacks a benefit or category.
pub fn inference_note(index: usize, total: usize) -> (r: String)
    requires
        index + 2 <= usize::MAX,
    ensures
        r@ == inference_note_text(index as nat, total as nat),
{
    let mut s = String::from_str("Claim ");
    push_decimal(&mut s, index + 1);
    s.append("/");
    push_decimal(&mut s, total);
    s.append(" (row ");
    push_decimal(&mut s, index + 2);
    s.append(")");
    s.append(
        " doesn't have a benefit and/or category. This will have to be inferred when the claims are submitted.",
    );
    s
}

/// The command that goes through a CSV of claims.
#[derive(Debug, Clone, Copy, PartialEq, Eq, Structural)]
pub enum CsvCommand {
    /// Submit each claim; `dry_run` stops short of sending, `can_infer` holds
    /// when an OpenAI API key or a GitHub token was given.
    Submit { dry_run: bool, can_infer: bool },
    /// Check that each claim could be turned into a submission.
    Validate,
}

/// What happens to one claim of the CSV, in this order: infer its benefit and
/// category, or put the placeholder benefit and category in; build the claim's
/// options (unless it is unclassified); then print the inference note, print the
/// dry-run line, or submit.
#[derive(Debug, Clone, Copy, PartialEq, Eq, Structural)]
pub struct ClaimPlan {
    /// Ask the language model for the benefit and category.
    pub infer: bool,
    /// Validate with the first benefit and its first category in place of the
    /// missing columns.
    pub use_placeholder: bool,
    /// Send the claim to Forma.
    pub submit: bool,
    /// Print that a dry run skips the submission.
    pub announce_dry_run: bool,
    /// Print that the benefit and category will have to be inferred.
    pub note_inference: bool,
    /// Fail the claim with `UNCLASSIFIED_CLAIM_MESSAGE`.
    pub unclassified: bool,
}

/// The plan for a claim with the given benefit and category columns.
pub open spec fn plan_of(command: CsvCommand, benefit: Seq<char>, category: Seq<char>) -> ClaimPlan {
    match command {
        CsvCommand::Submit { dry_run, can_infer } => match route_of(benefit, category, can_infer) {
            ClaimRoute::Unclassified => ClaimPlan {
                infer: false,
                use_placeholder: false,
                submit: false,
                announce_dry_run: false,
                note_inference: false,
                unclassified: true,
            },
            route => ClaimPlan {
                infer: route == ClaimRoute::Infer,
                use_placeholder: false,
                submit: !dry_run,
                announce_dry_run: dry_run,
                note_inference: false,
                unclassified: false,
            },
        },
        CsvCommand::Validate => {
            let given = benefit.len() > 0 && category.len() > 0;
            ClaimPlan {
                infer: false,
                use_placeholder: !given,
                submit: false,
                announce_dry_run: false,
                note_inference: !given,
                unclassified: false,
            }
        },
    }
}

/// Decides what happens to a claim with the given benefit and category columns.
pub fn plan_claim(command: CsvCommand, benefit: &str, category: &str) -> (r: ClaimPlan)
    ensures
        r == plan_of(command, benefit@, category@),
        command is Validate ==> {
            &&& r.use_placeholder == (benefit@.len() == 0 || category@.len() == 0)
            &&& r.note_inference == (benefit@.len() == 0 || category@.len() == 0)
            &&& !r.infer && !r.submit && !r.announce_dry_run && !r.unclassified
        },
        command matches CsvCommand::Submit { dry_run, can_infer } ==> {
            let given = benefit@.len() > 0 && category@.len() > 0;
            &&& r.unclassified == (!given && !can_infer)
            &&& r.infer == (!given && can_infer)
            &&& r.submit == (!dry_run && (given || can_infer))
            &&& r.announce_dry_run == (dry_run && (given || can_infer))
            &&& !r.use_placeholder && !r.note_inference
        },
{
    match command {
        CsvCommand::Submit { dry_run, can_infer } => match claim_route(benefit, category, can_infer) {
            ClaimRoute::Unclassified => ClaimPlan {
                infer: false,
                use_placeholder: false,
                submit: false,
                announce_dry_run: false,
                note_inference: false,
                unclassified: true,
            },
            ClaimRoute::Given => ClaimPlan {
                infer: false,
                use_placeholder: false,
                submit: !dry_run,
                announce_dry_run: dry_run,
                note_inference: false,
                unclassified: false,
            },
            ClaimRoute::Infer => ClaimPlan {
                infer: true,
                use_placeholder: false,
                submit: !dry_run,
                announce_dry_run: dry_run,
                note_inference: false,
                unclassified: false,
            },
        },
        CsvCommand::Validate => {
            let given = benefit.unicode_len() > 0 && category.unicode_len() > 0;
            ClaimPlan {
                infer: false,
                use_placeholder: !given,
                submit: false,
                announce_dry_run: false,
                note_inference: !given,
                unclassified: false,
            }
        },
    }
}

/// A dry run never submits; validation never submits nor infers; a claim is
/// unclassified only when submitting without a way to infer, and then nothing
/// else happens to it.
pub proof fn lemma_plan_properties(command: CsvCommand, benefit: Seq<char>, category: Seq<char>)
    ensures
        command matches CsvCommand::Submit { dry_run, .. } && dry_run ==> !plan_of(command, benefit, category).submit,
        command is Validate ==> !plan_of(command, benefit, category).submit && !plan_of(command, benefit, category).infer,
        plan_of(command, benefit, category).unclassified ==> (command matches CsvCommand::Submit { can_infer, .. } && !can_infer),
        plan_of(command, benefit, category).unclassified ==> !plan_of(command, benefit, category).submit
            && !plan_of(command, benefit, category).infer,
        benefit.len() > 0 && category.len() > 0 ==> !plan_of(command, benefit, category).infer
            && !plan_of(command, benefit, category).use_placeholder
            && !plan_of(command, benefit, category).unclassified,
{
}

/// Validation checks a row with the placeholder benefit and category, and notes
/// that they will have to be inferred, exactly when the benefit or the category
/// column is empty; it never infers, submits, or fails a row as unclassified.
pub proof fn lemma_validate_plan(benefit: Seq<char>, category: Seq<char>)
    ensures
        plan_of(CsvCommand::Validate, benefit, category).use_placeholder <==> (benefit.len() == 0
            || category.len() == 0),
        plan_of(CsvCommand::Validate, benefit, category).note_inference <==> (benefit.len() == 0
            || category.len() == 0),
        !plan_of(CsvCommand::Validate, benefit, category).infer,
        !plan_of(CsvCommand::Validate, benefit, category).submit,
        !plan_of(CsvCommand::Validate, benefit, category).announce_dry_run,
        !plan_of(CsvCommand::Validate, benefit, category).unclassified,
{
}

/// Submitting sends a row only outside a dry run, and only when both columns are
/// filled in or can be inferred; a row with an empty column and no way to infer
/// fails as unclassified; inference happens exactly for rows with an empty column
/// when it is possible.
pub proof fn lemma_submit_plan(dry_run: bool, can_infer: bool, benefit: Seq<char>, category: Seq<char>)
    ensures
        ({
            let p = plan_of(CsvCommand::Submit { dry_run, can_infer }, benefit, category);
            let given = benefit.len() > 0 && category.len() > 0;
            &&& p.submit <==> (!dry_run && (given || can_infer))
            &&& p.unclassified <==> (!given && !can_infer)
            &&& p.infer <==> (!given && can_infer)
            &&& p.announce_dry_run <==> (dry_run && (given || can_infer))
            &&& !p.use_placeholder && !p.note_inference
        }),
{
}

/// Where a run through a CSV of claims stands: the claim to handle next, out
/// of how many. Every claim is handled in turn, whether the ones before it
/// succeeded or failed.
pub struct CsvRun {
    next: usize,
    total: usize,
}

/// A run seen as plain values.
pub struct CsvRunView {
    pub next: nat,
    pub total: nat,
}

impl View for CsvRun {
    type V = CsvRunView;

    closed spec fn view(&self) -> CsvRunView {
        CsvRunView { next: self.next as nat, total: self.total as nat }
    }
}

impl CsvRun {
    /// Starts a run over `total` claims; a CSV without claims is an error.
    pub fn start(total: usize) -> (r: Result<CsvRun, String>)
        ensures
            match r {
                Ok(run) => total > 0 && run@.next == 0 && run@.total == total,
                Err(m) => total == 0 && m@ == EMPTY_CSV_MESSAGE@,
            },
    {
        if total == 0 {
            Err(String::from_str(EMPTY_CSV_MESSAGE))
        } else {
            Ok(CsvRun { next: 0, total })
        }
    }

    /// The index of the claim to handle next, or `None` once all were handled.
    pub fn current(&self) -> (r: Option<usize>)
        ensures
            r == (if self@.next < self@.total { Some(self@.next as usize) } else { None }),
    {
        if self.next < self.total {
            Some(self.next)
        } else {
            None
        }
    }

    /// Records that the current claim was handled, successfully or not, and
    /// moves on to the next one.
    pub fn record(&mut self, _succeeded: bool)
        requires
            old(self)@.next < old(self)@.total,
        ensures
            final(self)@.next == old(self)@.next + 1,
            final(self)@.total == old(self)@.total,
    {
        self.next = self.next + 1;
    }
}

/// Validation needs at least one benefit to borrow a placeholder from.
pub fn check_benefits_present(count: usize) -> (r: Result<(), String>)
    ensures
        match r {
            Ok(()) => count > 0,
            Err(m) => count == 0 && m@ == NO_BENEFITS_MESSAGE@,
        },
{
    if count == 0 {
        Err(String::from_str(NO_BENEFITS_MESSAGE))
    } else {
        Ok(())
    }
}

/// The benefit name and subcategory name that validation puts into a claim that
/// lacks them: those of the first benefit and its first category.
pub fn validation_placeholder(benefits: &Vec<BenefitWithCategories>) -> (r: (String, String))
    requires
        benefits@.len() > 0,
        benefits@[0].categories@.len() > 0,
    ensures
        r.0 == benefits@[0].benefit.name,
        r.1 == benefits@[0].categories@[0].subcategory_name,
{
    (benefits[0].benefit.name.clone(), benefits[0].categories[0].subcategory_name.clone())
}

/// The error for an input file that does not exist.
pub fn missing_file_message(path: &str) -> (r: String)
    ensures
        r@ == "File '"@ + path@ + "' doesn't exist."@,
{
    let mut s = String::from_str("File '");
    s.append(path);
    s.append("' doesn't exist.");
    s
}

/// The error for a template output file that already exists.
pub fn existing_output_message(path: &str) -> (r: String)
    ensures
        r@ == "File '"@ + path@ + "' already exists. Please delete it first, or set a different `--output-path`."@,
{
    let mut s = String::from_str("File '");
    s.append(path);
    s.append("' already exists. Please delete it first, or set a different `--output-path`.");
    s
}

/// The line printed once the template has been written.
pub fn template_written_message(path: &str) -> (r: String)
    ensures
        r@ == "Wrote template CSV to "@ + path@,
{
    let mut s = String::from_str("Wrote template CSV to ");
    s.append(path);
    s
}

} // verus!
