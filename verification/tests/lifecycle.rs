use reputesol::constants::AUTHORITY;
use reputesol::errors::{ErrorCode, InstructionError};
use reputesol::instructions::{initialize_user_at, update_score_at, InitializeUser, UpdateScore};
use reputesol::pubkey::Pubkey;
use reputesol::state::UserAccount;

const OWNER: Pubkey = [0x11u8; 32];
const STRANGER: Pubkey = [0x22u8; 32];

fn holds_its_invariant(record: &UserAccount) -> bool {
    record.owner == OWNER
        && record.bump == 251
        && record.gitcoin_score <= 100
        && record.solana_score <= 100
        && record.total_score
            == 2 * u64::from(record.gitcoin_score) + 3 * u64::from(record.solana_score)
}

fn update(place: &mut Option<UserAccount>, signer: Pubkey, gitcoin: u16, solana: u16, now: i64) -> Option<Result<(), ErrorCode>> {
    let record: UserAccount = (*place)?;
    let mut ctx: UpdateScore = UpdateScore { user_account: record, authority: signer };
    let outcome: Result<(), ErrorCode> = update_score_at(&mut ctx, gitcoin, solana, now);
    *place = Some(ctx.user_account);
    Some(outcome)
}

fn register(place: &mut Option<UserAccount>, now: i64) -> Result<(), InstructionError> {
    let mut ctx: InitializeUser = InitializeUser { user_account: *place, owner: OWNER, bump: 251 };
    let outcome: Result<(), InstructionError> = initialize_user_at(&mut ctx, now);
    *place = ctx.user_account;
    outcome
}

#[test]
fn record_stays_well_formed_over_a_history() {
    let mut place: Option<UserAccount> = None;
    assert_eq!(update(&mut place, AUTHORITY, 1, 1, 5), None);
    assert_eq!(place, None);

    assert_eq!(register(&mut place, 10), Ok(()));
    assert!(holds_its_invariant(&place.expect("registered")));

    assert_eq!(update(&mut place, AUTHORITY, 80, 90, 20), Some(Ok(())));
    assert!(holds_its_invariant(&place.expect("registered")));
    assert_eq!(place.expect("registered").total_score, 430);

    assert_eq!(update(&mut place, STRANGER, 1, 1, 30), Some(Err(ErrorCode::Unauthorized)));
    assert_eq!(update(&mut place, AUTHORITY, 101, 1, 40), Some(Err(ErrorCode::InvalidScore)));
    assert_eq!(register(&mut place, 50), Err(InstructionError::DuplicateRecord));
    let record: UserAccount = place.expect("registered");
    assert!(holds_its_invariant(&record));
    assert_eq!(record.total_score, 430);
    assert_eq!(record.last_updated, 20);

    assert_eq!(update(&mut place, AUTHORITY, 0, 100, 60), Some(Ok(())));
    let record: UserAccount = place.expect("registered");
    assert!(holds_its_invariant(&record));
    assert_eq!(record.total_score, 300);
    assert_eq!(record.last_updated, 60);
}
