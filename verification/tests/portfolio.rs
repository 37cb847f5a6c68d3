use dotgo_portfolio::portfolio::DotgoPortfolio;
use dotgo_portfolio::portfolio::PLATFORM_SHARE;
use dotgo_portfolio::portfolio::STUDENT_SHARE;
use dotgo_portfolio::portfolio::UNLOCK_PRICE;
use dotgo_portfolio::Error;

const ALICE: u64 = 1;
const BOB: u64 = 2;
const CAROL: u64 = 3;

fn sample_contract() -> DotgoPortfolio {
    DotgoPortfolio::new(ALICE)
}

fn sample_project(contract: &mut DotgoPortfolio, owner: u64) -> u64 {
    contract.create_project(
        owner,
        String::from("My Portfolio"),
        String::from("A cool project"),
        String::from("https://github.com/user/repo"),
        String::from("https://demo.com"),
        vec![String::from("Rust")],
        0,
    )
}

#[test]
fn create_project_works() {
    let mut contract = sample_contract();

    let project_id = contract.create_project(
        ALICE,
        String::from("My Portfolio"),
        String::from("A cool project"),
        String::from("https://github.com/user/repo"),
        String::from("https://demo.com"),
        vec![String::from("Rust"), String::from("React")],
        0,
    );

    assert_eq!(project_id, 0);
    assert!(contract.get_project(project_id).is_some());
}

#[test]
fn unlock_and_review_works() {
    let mut contract = sample_contract();
    let project_id = sample_project(&mut contract, ALICE);

    let split = contract.unlock_project(project_id, BOB, 3_000_000_000_000);
    assert!(split.is_ok());
    let result = contract.record_unlock(project_id, BOB, 3_000_000_000_000, true);
    assert!(result.is_ok());

    let review_result = contract.submit_review(project_id, 5, String::from("Great!"), BOB, 0);
    assert!(review_result.is_ok());

    let reviews = contract.get_reviews(project_id).unwrap();
    assert_eq!(reviews.len(), 1);
    assert_eq!(reviews[0].rating, 5);
}

#[test]
fn created_fields_are_stored() {
    let mut contract = sample_contract();
    let id = contract.create_project(
        ALICE,
        String::from("My Portfolio"),
        String::from("A cool project"),
        String::from("https://github.com/user/repo"),
        String::from("https://demo.com"),
        vec![String::from("Rust"), String::from("React")],
        42,
    );
    let p = contract.get_project(id).unwrap();
    assert_eq!(p.id, 0);
    assert_eq!(p.student, ALICE);
    assert_eq!(p.title, "My Portfolio");
    assert_eq!(p.description, "A cool project");
    assert_eq!(p.github_url, "https://github.com/user/repo");
    assert_eq!(p.demo_url, "https://demo.com");
    assert_eq!(p.skills, vec![String::from("Rust"), String::from("React")]);
    assert_eq!(p.created_at, 42);
    assert_eq!(p.unlock_count, 0);
    assert_eq!(p.avg_rating, 0);
}

#[test]
fn ids_are_sequential() {
    let mut contract = sample_contract();
    assert_eq!(sample_project(&mut contract, ALICE), 0);
    assert_eq!(sample_project(&mut contract, BOB), 1);
    // a failed unlock in between changes nothing
    assert_eq!(
        contract.unlock_project(9, BOB, UNLOCK_PRICE),
        Err(Error::ProjectNotFound)
    );
    assert_eq!(sample_project(&mut contract, ALICE), 2);
    assert_eq!(contract.get_student_projects(ALICE), vec![0, 2]);
    assert_eq!(contract.get_student_projects(BOB), vec![1]);
    assert_eq!(contract.get_student_projects(CAROL), Vec::<u64>::new());
}

#[test]
fn unlock_price_is_fixed() {
    let contract = sample_contract();
    assert_eq!(contract.get_unlock_price(), 3_000_000_000_000);
    assert_eq!(STUDENT_SHARE + PLATFORM_SHARE, UNLOCK_PRICE);
}

#[test]
fn missing_listing_lookups() {
    let contract = sample_contract();
    assert!(contract.get_project(0).is_none());
    assert!(contract.get_reviews(0).is_none());
    assert!(!contract.is_unlocked(0, BOB));
}

#[test]
fn unlock_missing_listing_fails() {
    let mut contract = sample_contract();
    assert_eq!(
        contract.unlock_project(0, BOB, UNLOCK_PRICE),
        Err(Error::ProjectNotFound)
    );
}

#[test]
fn owner_cannot_unlock_own_listing() {
    let mut contract = sample_contract();
    let id = sample_project(&mut contract, ALICE);
    assert_eq!(
        contract.unlock_project(id, ALICE, UNLOCK_PRICE),
        Err(Error::CannotReviewOwnProject)
    );
    assert!(!contract.is_unlocked(id, ALICE));
    assert_eq!(contract.get_project(id).unwrap().unlock_count, 0);
}

#[test]
fn underpayment_is_rejected() {
    let mut contract = sample_contract();
    let id = sample_project(&mut contract, ALICE);
    assert_eq!(
        contract.unlock_project(id, BOB, UNLOCK_PRICE - 1),
        Err(Error::InsufficientPayment)
    );
    assert!(!contract.is_unlocked(id, BOB));
}

#[test]
fn overpayment_is_accepted() {
    let mut contract = sample_contract();
    let id = sample_project(&mut contract, ALICE);
    let split = contract.unlock_project(id, BOB, UNLOCK_PRICE + 7).unwrap();
    // only the fixed shares are ever paid out; the excess stays with the host
    assert_eq!(split.student_amount + split.platform_amount, UNLOCK_PRICE);
    assert!(contract.record_unlock(id, BOB, UNLOCK_PRICE + 7, true).is_ok());
    assert!(contract.is_unlocked(id, BOB));
}

#[test]
fn failed_transfer_leaves_state_unchanged() {
    let mut contract = sample_contract();
    let id = sample_project(&mut contract, ALICE);
    assert!(contract.unlock_project(id, BOB, UNLOCK_PRICE).is_ok());
    assert_eq!(
        contract.record_unlock(id, BOB, UNLOCK_PRICE, false),
        Err(Error::TransferFailed)
    );
    assert!(!contract.is_unlocked(id, BOB));
    assert_eq!(contract.get_project(id).unwrap().unlock_count, 0);
    // the caller may retry once transfers go through
    assert!(contract.unlock_project(id, BOB, UNLOCK_PRICE).is_ok());
    assert!(contract.record_unlock(id, BOB, UNLOCK_PRICE, true).is_ok());
    assert!(contract.is_unlocked(id, BOB));
}

#[test]
fn record_unlock_revalidates() {
    let mut contract = sample_contract();
    let id = sample_project(&mut contract, ALICE);
    // even with transfers marked successful, an invalid request commits nothing
    assert_eq!(
        contract.record_unlock(id, BOB, UNLOCK_PRICE - 1, true),
        Err(Error::InsufficientPayment)
    );
    assert_eq!(
        contract.record_unlock(id, ALICE, UNLOCK_PRICE, true),
        Err(Error::CannotReviewOwnProject)
    );
    assert_eq!(
        contract.record_unlock(9, BOB, UNLOCK_PRICE, true),
        Err(Error::ProjectNotFound)
    );
    assert!(!contract.is_unlocked(id, BOB));
    assert_eq!(contract.get_project(id).unwrap().unlock_count, 0);
}

#[test]
fn second_unlock_is_rejected() {
    let mut contract = sample_contract();
    let id = sample_project(&mut contract, ALICE);
    assert!(contract.unlock_project(id, BOB, UNLOCK_PRICE).is_ok());
    assert!(contract.record_unlock(id, BOB, UNLOCK_PRICE, true).is_ok());
    assert_eq!(contract.get_project(id).unwrap().unlock_count, 1);
    assert_eq!(
        contract.unlock_project(id, BOB, UNLOCK_PRICE),
        Err(Error::AlreadyUnlocked)
    );
    assert_eq!(contract.get_project(id).unwrap().unlock_count, 1);
}

#[test]
fn distinct_accounts_raise_the_counter() {
    let mut contract = sample_contract();
    let id = sample_project(&mut contract, ALICE);
    for reviewer in [BOB, CAROL] {
        assert!(contract.unlock_project(id, reviewer, UNLOCK_PRICE).is_ok());
        assert!(contract.record_unlock(id, reviewer, UNLOCK_PRICE, true).is_ok());
    }
    assert_eq!(contract.get_project(id).unwrap().unlock_count, 2);
    assert!(contract.is_unlocked(id, BOB));
    assert!(contract.is_unlocked(id, CAROL));
    assert!(!contract.is_unlocked(id, ALICE));
}

#[test]
fn review_requires_unlock() {
    let mut contract = sample_contract();
    let id = sample_project(&mut contract, ALICE);
    assert_eq!(
        contract.submit_review(id, 5, String::from("Great!"), BOB, 0),
        Err(Error::NotUnlocked)
    );
    assert!(contract.get_reviews(id).unwrap().is_empty());
}

#[test]
fn out_of_range_ratings_are_rejected() {
    let mut contract = sample_contract();
    let id = sample_project(&mut contract, ALICE);
    assert!(contract.unlock_project(id, BOB, UNLOCK_PRICE).is_ok());
    assert!(contract.record_unlock(id, BOB, UNLOCK_PRICE, true).is_ok());
    assert_eq!(
        contract.submit_review(id, 0, String::from("none"), BOB, 0),
        Err(Error::InvalidRating)
    );
    assert_eq!(
        contract.submit_review(id, 6, String::from("six"), BOB, 0),
        Err(Error::InvalidRating)
    );
    assert!(contract.get_reviews(id).unwrap().is_empty());
    assert_eq!(contract.get_project(id).unwrap().avg_rating, 0);
}

#[test]
fn average_is_floor_of_the_whole_log() {
    let mut contract = sample_contract();
    let id = sample_project(&mut contract, ALICE);
    assert!(contract.unlock_project(id, BOB, UNLOCK_PRICE).is_ok());
    assert!(contract.record_unlock(id, BOB, UNLOCK_PRICE, true).is_ok());
    // the log is append-only and nothing caps reviews per account
    for (rating, expected_avg) in [(5u8, 5u8), (3, 4), (4, 4)] {
        let comment = format!("rated {}", rating);
        assert!(contract.submit_review(id, rating, comment, BOB, 0).is_ok());
        assert_eq!(contract.get_project(id).unwrap().avg_rating, expected_avg);
    }
    let reviews = contract.get_reviews(id).unwrap();
    assert_eq!(reviews.len(), 3);
    assert_eq!(reviews[0].rating, 5);
    assert_eq!(reviews[1].rating, 3);
    assert_eq!(reviews[2].rating, 4);
    // floor((5 + 3 + 4) / 3) == 4
    assert_eq!(contract.get_project(id).unwrap().avg_rating, 4);
}

#[test]
fn review_fields_are_stored() {
    let mut contract = sample_contract();
    let id = sample_project(&mut contract, ALICE);
    assert!(contract.unlock_project(id, BOB, UNLOCK_PRICE).is_ok());
    assert!(contract.record_unlock(id, BOB, UNLOCK_PRICE, true).is_ok());
    assert!(contract
        .submit_review(id, 4, String::from("solid work"), BOB, 99)
        .is_ok());
    let reviews = contract.get_reviews(id).unwrap();
    assert_eq!(reviews[0].reviewer, BOB);
    assert_eq!(reviews[0].rating, 4);
    assert_eq!(reviews[0].comment, "solid work");
    assert_eq!(reviews[0].timestamp, 99);
}
