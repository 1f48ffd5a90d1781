use formanator::commands::{
    check_benefits_present, plan_claim, ClaimPlan, CsvCommand, CsvRun, EMPTY_CSV_MESSAGE,
    NO_BENEFITS_MESSAGE, claim_route, existing_output_message, failure_message, inference_note, missing_file_message,
    progress_message, success_message, template_written_message, validation_placeholder, Activity,
    ClaimRoute, TEMPLATE_CSV,
};
use formanator::forma::{Benefit, BenefitWithCategories, Category};

#[test]
fn template_has_the_expected_header() {
    assert_eq!(TEMPLATE_CSV, "benefit,category,merchant,amount,description,purchaseDate,receiptPath\n");
}

#[test]
fn routes_of_claims() {
    assert_eq!(claim_route("Fitness", "Gym", false), ClaimRoute::Given);
    assert_eq!(claim_route("Fitness", "Gym", true), ClaimRoute::Given);
    assert_eq!(claim_route("", "Gym", true), ClaimRoute::Infer);
    assert_eq!(claim_route("Fitness", "", false), ClaimRoute::Unclassified);
}

#[test]
fn progress_lines_count_rows_from_two() {
    assert_eq!(progress_message(Activity::Submitting, 0, 3), "Submitting claim 1/3 (row 2)");
    assert_eq!(progress_message(Activity::Validating, 9, 12), "Validating claim 10/12 (row 11)");
    assert_eq!(success_message(Activity::Submitting, 2, 3), "Successfully submitted claim 3/3 (row 4)");
    assert_eq!(success_message(Activity::Validating, 0, 1), "Validated claim 1/1 (row 2)");
    assert_eq!(
        failure_message(Activity::Submitting, 1, 2, "boom"),
        "Error submitting claim 2/2: boom (row 3)"
    );
    assert_eq!(
        failure_message(Activity::Validating, 0, 2, "bad"),
        "Error validating claim 1/2: bad (row 2)"
    );
    assert_eq!(
        inference_note(4, 5),
        "Claim 5/5 (row 6) doesn't have a benefit and/or category. This will have to be inferred when the claims are submitted."
    );
}

#[test]
fn file_messages() {
    assert_eq!(missing_file_message("claims.csv"), "File 'claims.csv' doesn't exist.");
    assert_eq!(
        existing_output_message("t.csv"),
        "File 't.csv' already exists. Please delete it first, or set a different `--output-path`."
    );
    assert_eq!(template_written_message("t.csv"), "Wrote template CSV to t.csv");
}

#[test]
fn placeholder_is_first_benefit_and_category() {
    let category = Category {
        category_id: "c".to_string(),
        category_name: "Gym".to_string(),
        subcategory_name: "Membership".to_string(),
        subcategory_value: "membership".to_string(),
        subcategory_alias: None,
        benefit_id: "w".to_string(),
    };
    let b = BenefitWithCategories {
        benefit: Benefit {
            id: "w".to_string(),
            name: "Fitness".to_string(),
            remaining_amount_bits: 0f64.to_bits(),
            remaining_amount_currency: "USD".to_string(),
        },
        categories: vec![category],
    };
    let (name, sub) = validation_placeholder(&vec![b]);
    assert_eq!(name, "Fitness");
    assert_eq!(sub, "Membership");
}

fn plan(infer: bool, use_placeholder: bool, submit: bool, announce_dry_run: bool, note_inference: bool, unclassified: bool) -> ClaimPlan {
    ClaimPlan { infer, use_placeholder, submit, announce_dry_run, note_inference, unclassified }
}

#[test]
fn submit_plans() {
    let live = CsvCommand::Submit { dry_run: false, can_infer: true };
    let dry = CsvCommand::Submit { dry_run: true, can_infer: true };
    let no_llm = CsvCommand::Submit { dry_run: false, can_infer: false };
    assert_eq!(plan_claim(live, "Fitness", "Gym"), plan(false, false, true, false, false, false));
    assert_eq!(plan_claim(live, "", "Gym"), plan(true, false, true, false, false, false));
    assert_eq!(plan_claim(dry, "Fitness", "Gym"), plan(false, false, false, true, false, false));
    assert_eq!(plan_claim(dry, "Fitness", ""), plan(true, false, false, true, false, false));
    assert_eq!(plan_claim(no_llm, "", ""), plan(false, false, false, false, false, true));
    assert_eq!(plan_claim(no_llm, "Fitness", "Gym"), plan(false, false, true, false, false, false));
}

#[test]
fn validate_plans() {
    assert_eq!(plan_claim(CsvCommand::Validate, "Fitness", "Gym"), plan(false, false, false, false, false, false));
    assert_eq!(plan_claim(CsvCommand::Validate, "", "Gym"), plan(false, true, false, false, true, false));
}

#[test]
fn run_goes_through_every_claim_despite_failures() {
    assert_eq!(CsvRun::start(0).err().unwrap(), EMPTY_CSV_MESSAGE);
    let mut run = CsvRun::start(3).ok().unwrap();
    let mut seen = vec![];
    while let Some(i) = run.current() {
        seen.push(i);
        run.record(i != 1);
    }
    assert_eq!(seen, vec![0, 1, 2]);
}

#[test]
fn validation_needs_benefits() {
    assert_eq!(check_benefits_present(0).unwrap_err(), NO_BENEFITS_MESSAGE);
    assert!(check_benefits_present(2).is_ok());
}
