use dotgo_portfolio::portfolio::DotgoPortfolio;
use dotgo_portfolio::portfolio::UNLOCK_PRICE;
use dotgo_portfolio::Error;

const ALICE: u64 = 1;
const BOB: u64 = 2;
const TREASURY: u64 = 77;

// The full life of one listing, with the host's balance book kept alongside:
// create, paid unlock with its two-way split, review, and the rejections of
// every later conflicting call.
#[test]
fn end_to_end_scenario() {
    let mut contract = DotgoPortfolio::new(TREASURY);
    let id = contract.create_project(
        ALICE,
        String::from("My Portfolio"),
        String::from("A cool project"),
        String::from("https://github.com/user/repo"),
        String::from("https://demo.com"),
        vec![String::from("Rust")],
        0,
    );

    let mut alice_balance: u128 = 0;
    let mut treasury_balance: u128 = 0;

    // Bob pays the exact price
    let split = contract.unlock_project(id, BOB, UNLOCK_PRICE).unwrap();
    assert_eq!(split.student, ALICE);
    assert_eq!(split.treasury, TREASURY);
    // the host performs both transfers of the split ...
    alice_balance += split.student_amount;
    treasury_balance += split.platform_amount;
    // ... and reports them confirmed
    let unlocked = contract.record_unlock(id, BOB, UNLOCK_PRICE, true).unwrap();
    assert_eq!(unlocked.project_id, id);
    assert_eq!(unlocked.reviewer, BOB);
    assert_eq!(unlocked.amount_paid, UNLOCK_PRICE);

    assert_eq!(alice_balance, 2_500_000_000_000);
    assert_eq!(treasury_balance, 500_000_000_000);
    assert_eq!(contract.get_project(id).unwrap().unlock_count, 1);

    let reviewed = contract
        .submit_review(id, 5, String::from("great"), BOB, 1)
        .unwrap();
    assert_eq!(reviewed.project_id, id);
    assert_eq!(reviewed.reviewer, BOB);
    assert_eq!(reviewed.rating, 5);
    assert_eq!(contract.get_project(id).unwrap().avg_rating, 5);

    assert_eq!(
        contract.unlock_project(id, BOB, UNLOCK_PRICE),
        Err(Error::AlreadyUnlocked)
    );
    assert_eq!(
        contract.unlock_project(id, ALICE, UNLOCK_PRICE),
        Err(Error::CannotReviewOwnProject)
    );
    // nothing above moved any further value
    assert_eq!(alice_balance + treasury_balance, UNLOCK_PRICE);
}
