use formanator::claims::{
    claim_form_fields, claim_from_raw, get_claims_list, limit_value, Claim, ClaimsFilter,
    ClaimsListData, ClaimsPaging, CreateClaimOptions, LimitValue, RawClaim, RawReimbursement,
};
use std::path::PathBuf;

fn raw(id: &str, status: &str, reimbursement_status: Option<&str>) -> RawClaim {
    RawClaim {
        id: id.to_string(),
        status: status.to_string(),
        reimbursement: RawReimbursement {
            status: reimbursement_status.map(|x| x.to_string()),
            payout_status: None,
            amount_bits: Some(12.5f64.to_bits()),
            category: Some("Gym".to_string()),
            subcategory: None,
            reimbursement_vendor: Some("Shop".to_string()),
            date_processed: None,
            note: Some("note".to_string()),
            employee_note: None,
        },
    }
}

fn page(ids: &[&str], limit: LimitValue, count: u64) -> ClaimsListData {
    ClaimsListData { claims: ids.iter().map(|i| raw(i, "approved", None)).collect(), limit, count }
}

fn ids(claims: &[Claim]) -> Vec<String> {
    claims.iter().map(|c| c.id.clone()).collect()
}

#[test]
fn limit_reads_numbers_and_numeric_strings() {
    assert_eq!(limit_value(&LimitValue::Number(Some(20))), 20);
    assert_eq!(limit_value(&LimitValue::Number(None)), 0);
    assert_eq!(limit_value(&LimitValue::Text("15".to_string())), 15);
    assert_eq!(limit_value(&LimitValue::Text("fifteen".to_string())), 0);
    assert_eq!(limit_value(&LimitValue::Other), 0);
}

#[test]
fn raw_claim_fields_move_over() {
    let c = claim_from_raw(raw("c1", "in_progress", Some("pending")));
    assert_eq!(c.id, "c1");
    assert_eq!(c.status, "in_progress");
    assert_eq!(c.reimbursement_status.as_deref(), Some("pending"));
    assert_eq!(c.amount_bits.map(f64::from_bits), Some(12.5));
    assert_eq!(c.category.as_deref(), Some("Gym"));
    assert_eq!(c.reimbursement_vendor.as_deref(), Some("Shop"));
    assert_eq!(c.note.as_deref(), Some("note"));
}

#[test]
fn paging_continues_while_pages_are_full() {
    let mut p = ClaimsPaging::new();
    assert_eq!(p.next_page(), Some(0));
    p.receive_page(page(&["a", "b"], LimitValue::Number(Some(2)), 2));
    assert_eq!(p.next_page(), Some(1));
    p.receive_page(page(&["c", "d"], LimitValue::Text("2".to_string()), 2));
    assert_eq!(p.next_page(), Some(2));
    p.receive_page(page(&["e"], LimitValue::Number(Some(2)), 1));
    assert_eq!(p.next_page(), None);
    assert_eq!(ids(&p.into_claims()), vec!["a", "b", "c", "d", "e"]);
}

#[test]
fn paging_stops_when_limit_is_unknown() {
    let mut p = ClaimsPaging::new();
    p.receive_page(page(&["a"], LimitValue::Other, 0));
    assert_eq!(p.next_page(), None);
    let mut q = ClaimsPaging::new();
    q.receive_page(page(&[], LimitValue::Number(Some(0)), 0));
    assert_eq!(q.next_page(), None);
    assert!(q.into_claims().is_empty());
}

#[test]
fn paging_reports_page_number_overflow() {
    let p = ClaimsPaging::new();
    assert!(!p.would_overflow(&page(&[], LimitValue::Number(Some(3)), 3)));
}

#[test]
fn in_progress_filter_keeps_matching_claims_in_order() {
    let all: Vec<Claim> = vec![
        claim_from_raw(raw("a", "in_progress", None)),
        claim_from_raw(raw("b", "approved", Some("in_progress"))),
        claim_from_raw(raw("c", "approved", Some("paid"))),
        claim_from_raw(raw("d", "denied", None)),
        claim_from_raw(raw("e", "in_progress", Some("paid"))),
    ];
    let kept = get_claims_list(all.clone(), Some(ClaimsFilter::InProgress));
    assert_eq!(ids(&kept), vec!["a", "b", "e"]);
    let again = get_claims_list(kept.clone(), Some(ClaimsFilter::InProgress));
    assert_eq!(ids(&again), ids(&kept));
    let unfiltered = get_claims_list(all, None);
    assert_eq!(ids(&unfiltered), vec!["a", "b", "c", "d", "e"]);
}

#[test]
fn claim_form_has_fields_in_order() {
    let opts = CreateClaimOptions {
        amount: "12.50".to_string(),
        merchant: "Shop".to_string(),
        purchase_date: "2024-01-02".to_string(),
        description: "Shoes".to_string(),
        receipt_path: vec![PathBuf::from("/tmp/r.jpg")],
        access_token: "tok".to_string(),
        benefit_id: "w-fit".to_string(),
        category_id: "cat-gear".to_string(),
        subcategory_value: "shoes".to_string(),
        subcategory_alias: None,
    };
    let fields = claim_form_fields(&opts);
    let pairs: Vec<(&str, &str)> = fields.iter().map(|(a, b)| (a.as_str(), b.as_str())).collect();
    assert_eq!(
        pairs,
        vec![
            ("type", "transaction"),
            ("is_recurring", "false"),
            ("amount", "12.50"),
            ("transaction_date", "2024-01-02"),
            ("default_employee_wallet_id", "w-fit"),
            ("note", "Shoes"),
            ("category", "cat-gear"),
            ("category_alias", ""),
            ("subcategory", "shoes"),
            ("subcategory_alias", ""),
            ("reimbursement_vendor", "Shop"),
        ]
    );
    let with_alias = CreateClaimOptions { subcategory_alias: Some("Sneakers".to_string()), ..opts };
    assert_eq!(claim_form_fields(&with_alias)[9].1, "Sneakers");
}
