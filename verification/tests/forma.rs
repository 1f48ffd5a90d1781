use formanator::error::FormaError;
use formanator::forma::{
    get_benefits, get_benefits_with_categories, get_categories_for_benefit_name, CompanyInfo,
    CompanyWalletConfiguration, EmployeeInfo, EmployeeSettings, EmployeeWallet,
    EmployeeWalletConfig, ProfileData, ProfileResponse, RawCategory, RawSubcategory,
};

fn s(x: &str) -> String {
    x.to_string()
}

fn wallet(id: &str, name: &str, amount: f64, eligible: bool) -> EmployeeWallet {
    EmployeeWallet {
        id: s(id),
        amount_bits: amount.to_bits(),
        company_wallet_configuration: EmployeeWalletConfig { wallet_name: s(name) },
        is_employee_eligible: eligible,
    }
}

fn sub(name: &str, value: &str, aliases: &[&str]) -> RawSubcategory {
    RawSubcategory { name: s(name), value: s(value), aliases: aliases.iter().map(|a| s(a)).collect() }
}

fn profile() -> ProfileResponse {
    ProfileResponse {
        data: ProfileData {
            company: CompanyInfo {
                company_wallet_configurations: vec![
                    CompanyWalletConfiguration {
                        wallet_name: s("Learning"),
                        categories: vec![RawCategory {
                            id: s("cat-books"),
                            name: s("Books"),
                            subcategories: vec![sub("Ebooks", "ebooks", &[])],
                        }],
                    },
                    CompanyWalletConfiguration {
                        wallet_name: s("Fitness"),
                        categories: vec![
                            RawCategory {
                                id: s("cat-gym"),
                                name: s("Gym"),
                                subcategories: vec![
                                    sub("Membership", "membership", &["Gym fee", "Club"]),
                                    sub("Classes", "classes", &[]),
                                ],
                            },
                            RawCategory {
                                id: s("cat-gear"),
                                name: s("Gear"),
                                subcategories: vec![sub("Shoes", "shoes", &["Sneakers"])],
                            },
                        ],
                    },
                    CompanyWalletConfiguration { wallet_name: s("Fitness"), categories: vec![] },
                ],
            },
            employee: EmployeeInfo {
                employee_wallets: vec![
                    wallet("w-old-fit", "Fitness", 5.0, false),
                    wallet("w-fit", "Fitness", 120.5, true),
                    wallet("w-learn", "Learning", 300.0, true),
                    wallet("w-travel", "Travel", 10.0, true),
                    wallet("w-fit-2", "Fitness", 1.0, true),
                ],
                settings: EmployeeSettings { currency: s("USD") },
            },
        },
    }
}

#[test]
fn benefits_are_the_eligible_wallets_in_order() {
    let b = get_benefits(&profile());
    let names: Vec<&str> = b.iter().map(|x| x.name.as_str()).collect();
    assert_eq!(names, vec!["Fitness", "Learning", "Travel", "Fitness"]);
    assert_eq!(b[0].id, "w-fit");
    assert_eq!(f64::from_bits(b[0].remaining_amount_bits), 120.5);
    assert!(b.iter().all(|x| x.remaining_amount_currency == "USD"));
}

#[test]
fn benefits_of_a_profile_without_eligible_wallets_are_empty() {
    let mut p = profile();
    for w in p.data.employee.employee_wallets.iter_mut() {
        w.is_employee_eligible = false;
    }
    assert!(get_benefits(&p).is_empty());
}

#[test]
fn categories_flatten_subcategories_and_aliases() {
    let cats = get_categories_for_benefit_name(&profile(), "Fitness").unwrap();
    let seen: Vec<(String, String, Option<String>)> = cats
        .iter()
        .map(|c| (c.category_id.clone(), c.subcategory_value.clone(), c.subcategory_alias.clone()))
        .collect();
    assert_eq!(
        seen,
        vec![
            (s("cat-gym"), s("membership"), None),
            (s("cat-gym"), s("membership"), Some(s("Gym fee"))),
            (s("cat-gym"), s("membership"), Some(s("Club"))),
            (s("cat-gym"), s("classes"), None),
            (s("cat-gear"), s("shoes"), None),
            (s("cat-gear"), s("shoes"), Some(s("Sneakers"))),
        ]
    );
    assert_eq!(cats[1].category_name, "Gym");
    assert_eq!(cats[1].subcategory_name, "Membership");
}

#[test]
fn categories_carry_the_first_eligible_wallet_id() {
    let cats = get_categories_for_benefit_name(&profile(), "Fitness").unwrap();
    assert!(cats.iter().all(|c| c.benefit_id == "w-fit"));
}

#[test]
fn unknown_or_unconfigured_benefit_is_not_found() {
    let e = get_categories_for_benefit_name(&profile(), "Travel").unwrap_err();
    assert!(matches!(&e, FormaError::BenefitNotFound(n) if n == "Travel"));
    assert_eq!(e.message(), "Could not find benefit with name `Travel`.");
    let e = get_categories_for_benefit_name(&profile(), "Dental").unwrap_err();
    assert_eq!(e.message(), "Could not find benefit with name `Dental`.");
}

#[test]
fn ineligible_wallet_does_not_count() {
    let mut p = profile();
    p.data.employee.employee_wallets.retain(|w| w.id == "w-old-fit");
    assert!(matches!(
        get_categories_for_benefit_name(&p, "Fitness"),
        Err(FormaError::BenefitNotFound(_))
    ));
}

#[test]
fn benefits_with_categories_fails_on_first_unconfigured_benefit() {
    let e = get_benefits_with_categories(&profile()).unwrap_err();
    assert!(matches!(&e, FormaError::BenefitNotFound(n) if n == "Travel"));
}

#[test]
fn benefits_with_categories_pairs_each_benefit() {
    let mut p = profile();
    p.data.employee.employee_wallets.retain(|w| w.id != "w-travel");
    let all = get_benefits_with_categories(&p).unwrap();
    assert_eq!(all.len(), 3);
    assert_eq!(all[0].benefit.id, "w-fit");
    assert_eq!(all[0].categories.len(), 6);
    assert_eq!(all[1].benefit.name, "Learning");
    assert_eq!(all[1].categories.len(), 1);
    assert_eq!(all[1].categories[0].benefit_id, "w-learn");
    // A second eligible wallet with the same name gets the first wallet's categories.
    assert_eq!(all[2].benefit.id, "w-fit-2");
    assert!(all[2].categories.iter().all(|c| c.benefit_id == "w-fit"));
}
