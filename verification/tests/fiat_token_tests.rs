use fiat_token::account::AccountId;
use fiat_token::error::{
    AllowanceChange, Counter, FiatTokenError, Missing, Quantity, RemovalError, RequestOperation,
    RoleChange, Spending,
};
use fiat_token::events::fiat_token_event::{
    Approve, ApprovedForUpgrade, Blocklist, BlocklisterChanged, ControllerConfigured,
    ControllerRemoved, FiatTokenEvent, MinterConfigured, MinterRemoved, MultisigRequestCreated,
    Paused, RoleConfigured, RoleRevoked, Unblocklist, Unpaused,
};
use fiat_token::fiat_token::Contract;
use fiat_token::fiat_token_action::FiatTokenAction;
use fiat_token::role::Role;

const NOW: u64 = 1_700_000_000_000_000_000;

fn account(name: &str) -> AccountId {
    name.to_string()
}

fn accounts(index: usize) -> AccountId {
    account(["alice", "bob", "charlie", "danny", "eugene", "fargo"][index])
}

fn admin() -> AccountId {
    account("admin")
}

fn owner() -> AccountId {
    account("owner")
}

fn master_minter() -> AccountId {
    account("masterminter")
}

fn pauser() -> AccountId {
    account("pauser")
}

fn blocklister() -> AccountId {
    account("blocklister")
}

fn controller() -> AccountId {
    account("controller")
}

fn minter() -> AccountId {
    account("minter")
}

/// A contract with one account in each governance role, a controller that
/// controls a minter, and that minter configured with the largest allowance.
fn init_contract() -> Contract {
    let mut usdc = Contract::init(
        vec![admin()],
        vec![master_minter()],
        vec![owner()],
        vec![pauser()],
        blocklister(),
    );
    usdc.configure_controller(&master_minter(), controller(), minter()).unwrap();
    usdc.configure_minter_allowance(&controller(), u128::MAX).unwrap();
    usdc
}

/// Mints `init_amount` to `account_id`, as the default minter.
fn init_account(contract: &mut Contract, account_id: AccountId, init_amount: Option<u128>) {
    if let Some(amount) = init_amount {
        contract.mint(&minter(), &account_id, amount).unwrap();
    }
}

fn _blocklist(contract: &mut Contract, account_id: AccountId) {
    contract.blocklist(&blocklister(), account_id).unwrap();
}

#[test]
fn test_init() {
    let usdc = init_contract();
    assert_eq!(usdc.admins().get(0).unwrap(), &admin());
    assert_eq!(usdc.master_minters().get(0).unwrap(), &master_minter());
    assert_eq!(usdc.owners().get(0).unwrap(), &owner());
    assert_eq!(usdc.pausers().get(0).unwrap(), &pauser());
    assert_eq!(usdc.blocklister(), blocklister());
    assert!(!usdc.is_paused());
    assert!(!usdc.is_approved_for_upgrade());
    assert_eq!(usdc.get_next_multisig_request_id(), 0);
}

#[test]
fn test_allowance() {
    let usdc = init_contract();
    assert_eq!(usdc.allowance(&accounts(1), &accounts(0)), 0);
}

#[test]
fn test_get_minter_caller_does_not_control_minter() {
    let mut usdc = init_contract();
    let minterless_controller = account("ml_controller");
    usdc._grant_multisig_role(minterless_controller.clone(), Role::Controller);

    let error = usdc.get_minter(&minterless_controller).unwrap_err();

    assert_eq!(error, FiatTokenError::NotFound { missing: Missing::ControlledMinter });
    assert_eq!(error.message(), "FiatToken: caller does not control a minter");
}

#[test]
fn test_get_minter() {
    let mut usdc = init_contract();
    usdc.configure_controller(&master_minter(), controller(), minter()).unwrap();

    assert_eq!(usdc.get_minter(&controller()), Ok(minter()));
}

#[test]
fn test_configure_controller_not_master_minter() {
    let mut usdc = init_contract();

    let error = usdc.configure_controller(&controller(), controller(), minter()).unwrap_err();

    assert_eq!(error, FiatTokenError::Unauthorized { role: Role::MasterMinter });
    assert_eq!(error.message(), "FiatToken: caller is not a MasterMinter");
}

#[test]
fn test_configure_controller() {
    let mut usdc = init_contract();
    let controller = account("controller1");
    let minter = account("minter1");

    let event =
        usdc.configure_controller(&master_minter(), controller.clone(), minter.clone()).unwrap();

    // Configuring a controller only assigns a minter to it: the minter is
    // neither made a minter nor given an allowance.
    assert_eq!(usdc.is_minter(&minter), false);
    assert_eq!(usdc.minter_allowance(&minter), 0);
    assert_eq!(
        event,
        ControllerConfigured { controller_id: controller.clone(), minter_id: minter.clone() }
    );
    assert!(usdc.has_role(&controller, Role::Controller));
    assert!(usdc.has_role(&controller, Role::Multisig));
    assert_eq!(usdc.controlled_minter(&controller), Some(minter));
}

#[test]
fn test_configure_controller_update_minter() {
    let mut usdc = init_contract();
    let controller = account("controller1");
    let minter = account("minter1");
    let minter2 = account("minter2");

    let first =
        usdc.configure_controller(&master_minter(), controller.clone(), minter.clone()).unwrap();
    let second =
        usdc.configure_controller(&master_minter(), controller.clone(), minter2.clone()).unwrap();

    assert_eq!(
        first,
        ControllerConfigured { controller_id: controller.clone(), minter_id: minter }
    );
    assert_eq!(
        second,
        ControllerConfigured { controller_id: controller.clone(), minter_id: minter2.clone() }
    );
    assert_eq!(usdc.controlled_minter(&controller), Some(minter2));
}

#[test]
fn test_remove_controller() {
    let mut usdc = init_contract();
    let controller2 = account("controller2");
    usdc.configure_controller(&master_minter(), controller2.clone(), minter()).unwrap();

    let event = usdc.remove_controller(&master_minter(), controller2.clone()).unwrap();

    assert_eq!(usdc.controlled_minter(&controller2), None);
    assert!(!usdc.has_role(&controller2, Role::Controller));
    assert!(!usdc.has_role(&controller2, Role::Multisig));
    assert_eq!(event, ControllerRemoved { controller_id: controller2 });
}

#[test]
fn test_remove_controller_not_master_minter() {
    let mut usdc = init_contract();

    let error = usdc.remove_controller(&controller(), controller()).unwrap_err();

    assert_eq!(error.message(), "FiatToken: caller is not a MasterMinter");
    assert_eq!(usdc.controlled_minter(&controller()), Some(minter()));
}

#[test]
fn test_remove_controller_not_found() {
    let mut usdc = init_contract();
    usdc.configure_controller(&master_minter(), account("controller2"), minter()).unwrap();
    usdc.configure_controller(&master_minter(), account("controller3"), minter()).unwrap();

    let error = usdc.remove_controller(&master_minter(), minter()).unwrap_err();

    assert_eq!(error, FiatTokenError::NotFound { missing: Missing::Controller });
    assert_eq!(error.message(), "FiatToken: controller does not exist");
}

#[test]
fn test_configure_minter_allowance() {
    let mut usdc = init_contract();

    let event = usdc.configure_minter_allowance(&controller(), 12345).unwrap();

    assert_eq!(usdc.is_minter(&minter()), true);
    assert_eq!(usdc.minter_allowance(&minter()), 12345);
    assert_eq!(event, MinterConfigured { minter_id: minter(), minter_allowance: 12345 });
}

#[test]
fn test_remove_minter() {
    let mut usdc = init_contract();

    usdc.configure_minter_allowance(&controller(), 12345).unwrap();
    let event = usdc.remove_minter(&controller()).unwrap();

    assert_eq!(usdc.is_minter(&minter()), false);
    assert_eq!(usdc.minter_allowance(&minter()), 0);
    assert_eq!(event, MinterRemoved { minter_id: minter() });
}

#[test]
fn test_increase_minter_allowance_bad_increment() {
    let mut usdc = init_contract();

    usdc.configure_minter_allowance(&controller(), u128::MAX).unwrap();
    let error = usdc.increase_minter_allowance(&controller(), 0).unwrap_err();

    assert_eq!(
        error,
        FiatTokenError::InvalidAmount { quantity: Quantity::MinterAllowanceIncrement }
    );
    assert_eq!(
        error.message(),
        "FiatToken: minter allowance increment must be greater than 0"
    );
}

#[test]
fn test_increase_minter_allowance_overflow() {
    let mut usdc = init_contract();

    usdc.configure_minter_allowance(&controller(), u128::MAX).unwrap();
    let error = usdc.increase_minter_allowance(&controller(), 1).unwrap_err();

    assert_eq!(error, FiatTokenError::Overflow { counter: Counter::MinterAllowance });
    assert_eq!(error.message(), "FiatToken: attempted to overflow minter allowance");
    assert_eq!(usdc.minter_allowance(&minter()), u128::MAX);
}

#[test]
fn test_increase_minter_allowance() {
    let mut usdc = init_contract();

    usdc.configure_minter_allowance(&controller(), 123).unwrap();
    let event = usdc.increase_minter_allowance(&controller(), 10).unwrap();

    assert_eq!(usdc.minter_allowance(&minter()), 133);
    assert_eq!(event, MinterConfigured { minter_id: minter(), minter_allowance: 133 });
}

#[test]
fn test_decrease_minter_allowance_bad_decrement() {
    let mut usdc = init_contract();

    usdc.configure_minter_allowance(&controller(), u128::MAX).unwrap();
    let error = usdc.decrease_minter_allowance(&controller(), 0).unwrap_err();

    assert_eq!(
        error,
        FiatTokenError::InvalidAmount { quantity: Quantity::MinterAllowanceDecrement }
    );
    assert_eq!(
        error.message(),
        "FiatToken: minter allowance decrement must be greater than 0"
    );
}

#[test]
fn test_decrease_minter_allowance_underflow() {
    let mut usdc = init_contract();

    usdc.configure_minter_allowance(&controller(), 1).unwrap();
    let error = usdc.decrease_minter_allowance(&controller(), 2).unwrap_err();

    assert_eq!(error, FiatTokenError::Underflow { counter: Counter::MinterAllowance });
    assert_eq!(error.message(), "FiatToken: attempted to underflow minter allowance");
    assert_eq!(usdc.minter_allowance(&minter()), 1);
}

#[test]
fn test_decrease_minter_allowance() {
    let mut usdc = init_contract();

    usdc.configure_minter_allowance(&controller(), 123).unwrap();
    let event = usdc.decrease_minter_allowance(&controller(), 10).unwrap();

    assert_eq!(usdc.minter_allowance(&minter()), 113);
    assert_eq!(event, MinterConfigured { minter_id: minter(), minter_allowance: 113 });
}

#[test]
fn test_minter_allowance() {
    let usdc = init_contract();
    assert_eq!(usdc.is_minter(&accounts(1)), false);
    assert_eq!(usdc.minter_allowance(&accounts(1)), 0);
}

#[test]
fn test_update_master_minter() {
    let mut usdc = init_contract();

    let event = usdc.configure_multisig_role(&owner(), Role::MasterMinter, accounts(2)).unwrap();

    assert_eq!(event, RoleConfigured { role: Role::MasterMinter, account_id: accounts(2) });
    assert_eq!(event.role.name(), "MasterMinter");
    assert!(usdc.master_minters().contains(&accounts(2)));
}

#[test]
fn test_update_master_minter_not_owner() {
    let mut usdc = init_contract();

    let error =
        usdc.configure_multisig_role(&controller(), Role::MasterMinter, accounts(2)).unwrap_err();

    assert_eq!(error.message(), "FiatToken: caller is not a Owner");
}

#[test]
fn test_approve() {
    let mut usdc = init_contract();
    let allowed_amount: u128 = 123;
    let holder_id = controller();
    let spender_id = account("spender");

    let event = usdc.approve(&holder_id, spender_id.clone(), allowed_amount).unwrap();

    assert_eq!(usdc.allowance(&holder_id, &spender_id), allowed_amount);
    assert_eq!(event, Approve { holder_id, spender_id, allowance: allowed_amount });
}

#[test]
fn test_approve_twice() {
    let mut usdc = init_contract();
    let initial_allowed_amount: u128 = 123;
    let updated_allowed_amount: u128 = 200;
    let holder_id = controller();
    let spender_id = account("spender");

    let first = usdc.approve(&holder_id, spender_id.clone(), initial_allowed_amount).unwrap();
    let second = usdc.approve(&holder_id, spender_id.clone(), updated_allowed_amount).unwrap();

    assert_eq!(usdc.allowance(&holder_id, &spender_id), updated_allowed_amount);
    assert_eq!(
        first,
        Approve {
            holder_id: holder_id.clone(),
            spender_id: spender_id.clone(),
            allowance: initial_allowed_amount
        }
    );
    assert_eq!(second, Approve { holder_id, spender_id, allowance: updated_allowed_amount });
}

#[test]
fn test_increase_allowance_increment_less_than_zero() {
    let mut usdc = init_contract();
    let spender_id = account("spender");
    usdc.approve(&controller(), spender_id.clone(), 123).unwrap();

    let error = usdc.increase_allowance(&controller(), spender_id, 0).unwrap_err();

    assert_eq!(error, FiatTokenError::InvalidAmount { quantity: Quantity::AllowanceIncrement });
    assert_eq!(error.message(), "FiatToken: allowance increment must be greater than 0");
}

#[test]
fn test_increase_allowance_must_approve_first() {
    let mut usdc = init_contract();
    let spender_id = account("spender");

    let error = usdc.increase_allowance(&controller(), spender_id, 5).unwrap_err();

    assert_eq!(
        error,
        FiatTokenError::AllowanceNotApproved { attempted: AllowanceChange::Increment }
    );
    assert_eq!(
        error.message(),
        "FiatToken: must approve initial allowance before incrementing"
    );
}

#[test]
fn test_increase_allowance_overflow() {
    let mut usdc = init_contract();
    let spender_id = account("spender");
    usdc.approve(&controller(), spender_id.clone(), u128::MAX).unwrap();

    let error = usdc.increase_allowance(&controller(), spender_id.clone(), 1).unwrap_err();

    assert_eq!(error, FiatTokenError::Overflow { counter: Counter::Allowance });
    assert_eq!(error.message(), "FiatToken: attempted to overflow allowance");
    assert_eq!(usdc.allowance(&controller(), &spender_id), u128::MAX);
}

#[test]
fn test_increase_allowance() {
    let mut usdc = init_contract();
    let holder_id = controller();
    let spender_id = account("spender");
    usdc.approve(&holder_id, spender_id.clone(), 123).unwrap();

    let event = usdc.increase_allowance(&holder_id, spender_id.clone(), 7).unwrap();

    assert_eq!(usdc.allowance(&holder_id, &spender_id), 130);
    assert_eq!(event, Approve { holder_id, spender_id, allowance: 130 });
}

#[test]
fn test_decrease_allowance_increment_less_than_zero() {
    let mut usdc = init_contract();
    let spender_id = account("spender");
    usdc.approve(&controller(), spender_id.clone(), 123).unwrap();

    let error = usdc.decrease_allowance(&controller(), spender_id, 0).unwrap_err();

    assert_eq!(error, FiatTokenError::InvalidAmount { quantity: Quantity::AllowanceDecrement });
    assert_eq!(error.message(), "FiatToken: allowance decrement must be greater than 0");
}

#[test]
fn test_decrease_allowance_must_approve_first() {
    let mut usdc = init_contract();
    let spender_id = account("spender");

    let error = usdc.decrease_allowance(&controller(), spender_id, 5).unwrap_err();

    assert_eq!(
        error,
        FiatTokenError::AllowanceNotApproved { attempted: AllowanceChange::Decrement }
    );
    assert_eq!(
        error.message(),
        "FiatToken: must approve initial allowance before decrementing"
    );
}

#[test]
fn test_decrease_allowance_underflow() {
    let mut usdc = init_contract();
    let spender_id = account("spender");
    usdc.approve(&controller(), spender_id.clone(), 1).unwrap();

    let error = usdc.decrease_allowance(&controller(), spender_id.clone(), 2).unwrap_err();

    assert_eq!(error, FiatTokenError::Underflow { counter: Counter::Allowance });
    assert_eq!(error.message(), "FiatToken: attempted to underflow allowance");
    assert_eq!(usdc.allowance(&controller(), &spender_id), 1);
}

#[test]
fn test_decrease_allowance() {
    let mut usdc = init_contract();
    let holder_id = controller();
    let spender_id = account("spender");
    usdc.approve(&holder_id, spender_id.clone(), 123).unwrap();

    let event = usdc.decrease_allowance(&holder_id, spender_id.clone(), 3).unwrap();

    assert_eq!(usdc.allowance(&holder_id, &spender_id), 120);
    assert_eq!(event, Approve { holder_id, spender_id, allowance: 120 });
}

#[test]
fn test_transfer_from_not_in_allowed() {
    let mut usdc = init_contract();
    let to_account = account("to");
    init_account(&mut usdc, minter(), Some(100));
    init_account(&mut usdc, to_account.clone(), Some(100));

    let error = usdc.transfer_from(&minter(), minter(), to_account, 51).unwrap_err();

    assert_eq!(error, FiatTokenError::ExceedsAllowance { spending: Spending::Transfer });
    assert_eq!(error.message(), "FiatToken: transfer amount exceeds allowance");
}

#[test]
fn test_transfer_from_insufficent_allowance() {
    let mut usdc = init_contract();
    let to_account = account("to");
    usdc.approve(&controller(), controller(), 10).unwrap();
    init_account(&mut usdc, minter(), Some(100));
    init_account(&mut usdc, to_account.clone(), Some(100));

    let error = usdc.transfer_from(&minter(), minter(), to_account, 51).unwrap_err();

    assert_eq!(error.message(), "FiatToken: transfer amount exceeds allowance");
    assert_eq!(usdc.allowance(&controller(), &controller()), 10);
}

#[test]
fn test_transfer_from() {
    let mut usdc = init_contract();
    let holder_account = account("from");
    let spender_account = account("spender");
    let to_account = account("to");
    init_account(&mut usdc, holder_account.clone(), Some(100));
    init_account(&mut usdc, spender_account.clone(), Some(100));
    init_account(&mut usdc, to_account.clone(), Some(100));

    // The holder approves the spender over its tokens.
    usdc.approve(&holder_account, spender_account.clone(), 123).unwrap();

    // The spender spends the tokens of the holder.
    let event = usdc
        .transfer_from(&spender_account, holder_account.clone(), to_account.clone(), 51)
        .unwrap();

    assert_eq!(usdc.allowance(&holder_account, &spender_account), 72); // 123 - 51.
    assert_eq!(
        event,
        Approve { holder_id: holder_account, spender_id: spender_account, allowance: 72 }
    );
}

#[test]
fn fiat_token_test_ft_transfer() {
    let mut usdc = init_contract();
    let sender = account("from");
    let receiver = account("to");
    init_account(&mut usdc, sender.clone(), Some(100));
    init_account(&mut usdc, receiver.clone(), Some(100));

    // The guard lets the transfer through; moving the tokens is the host's.
    assert_eq!(usdc.ft_transfer(&sender, &receiver), Ok(()));
}

#[test]
fn test_ft_transfer_call() {
    let mut usdc = init_contract();
    let sender = account("from");
    let receiver = account("to");
    init_account(&mut usdc, sender.clone(), Some(100));
    init_account(&mut usdc, receiver.clone(), Some(100));

    assert_eq!(usdc.ft_transfer_call(&sender, &receiver), Ok(()));
}

#[test]
fn test_mint() {
    let mut usdc = init_contract();
    let to = account("to_id");
    let mint_amount: u128 = 100;
    usdc.configure_minter_allowance(&controller(), 123).unwrap();

    let result = usdc.mint(&minter(), &to, mint_amount);

    assert_eq!(result, Ok(()));
    assert_eq!(usdc.minter_allowance(&minter()), 23);
}

#[test]
fn fiat_token_test_mint_exceeds_allowance() {
    let mut usdc = init_contract();
    let to = account("to_id");
    usdc.configure_minter_allowance(&controller(), 123).unwrap();

    let error = usdc.mint(&minter(), &to, 200).unwrap_err();

    assert_eq!(error, FiatTokenError::ExceedsAllowance { spending: Spending::Mint });
    assert_eq!(error.message(), "FiatToken: mint amount exceeds minter allowance");
    assert_eq!(usdc.minter_allowance(&minter()), 123);
}

#[test]
fn test_mint_caller_not_a_minter() {
    let mut usdc = init_contract();
    let to = account("to_id");
    usdc.configure_minter_allowance(&controller(), 123).unwrap();

    let error = usdc.mint(&owner(), &to, 200).unwrap_err();

    assert_eq!(error, FiatTokenError::Unauthorized { role: Role::Minter });
    assert_eq!(error.message(), "FiatToken: caller is not a Minter");
}

#[test]
fn test_mint_amount_must_be_greater_than_zero() {
    let mut usdc = init_contract();
    let to = account("to_id");
    usdc.configure_minter_allowance(&controller(), 123).unwrap();

    let error = usdc.mint(&minter(), &to, 0).unwrap_err();

    assert_eq!(error, FiatTokenError::InvalidAmount { quantity: Quantity::MintAmount });
    assert_eq!(error.message(), "FiatToken: mint amount not greater than 0");
}

#[test]
fn test_mint_twice_exceeds_allowance() {
    let mut usdc = init_contract();
    let to = account("to_id");
    usdc.configure_minter_allowance(&controller(), 123).unwrap();

    usdc.mint(&minter(), &to, 100).unwrap();
    let error = usdc.mint(&minter(), &to, 100).unwrap_err();

    assert_eq!(error.message(), "FiatToken: mint amount exceeds minter allowance");
    assert_eq!(usdc.minter_allowance(&minter()), 23);
}

/// A contract in which `burner` holds `balance` tokens and is a minter with
/// that allowance, configured by its own controller.
fn init_burner(balance: u128) -> (Contract, AccountId) {
    let mut usdc = init_contract();
    let burner_controller = account("burnercontroller");
    let burner = account("burner");
    init_account(&mut usdc, burner.clone(), Some(balance));
    usdc.configure_controller(&master_minter(), burner_controller.clone(), burner.clone()).unwrap();
    usdc.configure_minter_allowance(&burner_controller, balance).unwrap();
    (usdc, burner)
}

#[test]
fn test_burn() {
    let (usdc, burner) = init_burner(50);

    assert_eq!(usdc.burn(&burner, 49, 50), Ok(()));
}

#[test]
fn test_burn_amount_must_be_greater_than_zero() {
    let (usdc, burner) = init_burner(50);

    let error = usdc.burn(&burner, 0, 50).unwrap_err();

    assert_eq!(error, FiatTokenError::InvalidAmount { quantity: Quantity::BurnAmount });
    assert_eq!(error.message(), "FiatToken: burn amount not greater than 0");
}

#[test]
fn test_burn_amount_exceeds_burner_balance() {
    let (usdc, burner) = init_burner(50);

    let error = usdc.burn(&burner, 51, 50).unwrap_err();

    assert_eq!(error, FiatTokenError::ExceedsBalance);
    assert_eq!(error.message(), "FiatToken: burn amount exceeds balance");
}

#[test]
fn test_burn_twice_exceeds_allowance() {
    let (usdc, burner) = init_burner(50);

    assert_eq!(usdc.burn(&burner, 50, 50), Ok(()));
    let error = usdc.burn(&burner, 1, 0).unwrap_err();

    assert_eq!(error.message(), "FiatToken: burn amount exceeds balance");
}

#[test]
fn test_revoke_multisig_role_caller_invalid_role() {
    let mut usdc = init_contract();

    let error = usdc.revoke_multisig_role(&controller(), Role::Minter, admin()).unwrap_err();

    assert_eq!(error, FiatTokenError::InvalidRoleGrant { change: RoleChange::Revoke });
    assert_eq!(error.message(), "FiatToken: cannot revoke the specified role");
}

#[test]
fn test_revoke_multisig_role_can_revoke_accounts_without_role() {
    let mut usdc = init_contract();

    let event = usdc.revoke_multisig_role(&admin(), Role::Admin, admin()).unwrap();
    assert_eq!(event, RoleRevoked { role: Role::Admin, account_id: admin() });
    assert_eq!(event.role.name(), "Admin");

    // Revoking the owner role from a pauser, who does not hold it, is no
    // failure: it changes nothing of that role.
    usdc.revoke_multisig_role(&owner(), Role::Owner, pauser()).unwrap();
    assert!(usdc.has_role(&pauser(), Role::Pauser));
    let event = usdc.revoke_multisig_role(&owner(), Role::Owner, owner()).unwrap();
    assert_eq!(event, RoleRevoked { role: Role::Owner, account_id: owner() });
    assert!(usdc.owners().is_empty());
}

#[test]
fn test_pause() {
    let mut usdc = init_contract();

    let event = usdc.pause(&pauser()).unwrap();

    assert_eq!(event, Paused);
    assert!(usdc.is_paused());
}

#[test]
fn test_pause_not_pauser() {
    let mut usdc = init_contract();

    let error = usdc.pause(&accounts(1)).unwrap_err();

    assert_eq!(error.message(), "FiatToken: caller is not a Pauser");
    assert!(!usdc.is_paused());
}

#[test]
fn test_pause_already_paused() {
    let mut usdc = init_contract();

    usdc.pause(&pauser()).unwrap();
    let error = usdc.pause(&pauser()).unwrap_err();

    assert_eq!(error, FiatTokenError::Paused);
    assert_eq!(error.message(), "FiatToken: paused");
}

#[test]
fn test_unpause() {
    let mut usdc = init_contract();

    usdc.pause(&pauser()).unwrap();
    let event = usdc.unpause(&pauser()).unwrap();

    assert_eq!(event, Unpaused);
    assert!(!usdc.is_paused());
}

#[test]
fn test_unpause_not_pauser() {
    let mut usdc = init_contract();

    let error = usdc.unpause(&controller()).unwrap_err();

    assert_eq!(error.message(), "FiatToken: caller is not a Pauser");
}

#[test]
fn test_unpause_already_unpaused() {
    let mut usdc = init_contract();

    let error = usdc.unpause(&pauser()).unwrap_err();

    assert_eq!(error, FiatTokenError::NotPaused);
    assert_eq!(error.message(), "FiatToken: not paused");
}

#[test]
fn test_update_pauser() {
    let mut usdc = init_contract();
    let pauser_id = accounts(2);

    let event = usdc.configure_multisig_role(&owner(), Role::Pauser, pauser_id.clone()).unwrap();

    assert_eq!(event, RoleConfigured { role: Role::Pauser, account_id: accounts(2) });
    assert_eq!(event.role.name(), "Pauser");

    // The new pauser can pause.
    assert_eq!(usdc.pause(&pauser_id), Ok(Paused));
}

#[test]
fn test_update_pauser_not_owner() {
    let mut usdc = init_contract();

    let error =
        usdc.configure_multisig_role(&controller(), Role::Pauser, accounts(2)).unwrap_err();

    assert_eq!(error.message(), "FiatToken: caller is not a Owner");
}

#[test]
fn test_blocklist_and_unblocklist() {
    let mut usdc = init_contract();
    let to_block_account = account("block_me");
    init_account(&mut usdc, to_block_account.clone(), Some(100));

    assert_eq!(usdc.blocklister(), account("blocklister"));
    assert_eq!(usdc.is_blocklisted(to_block_account.clone()), false);
    let blocked = usdc.blocklist(&blocklister(), to_block_account.clone()).unwrap();
    assert_eq!(usdc.is_blocklisted(to_block_account.clone()), true);
    let unblocked = usdc.unblocklist(&blocklister(), to_block_account.clone()).unwrap();
    assert_eq!(usdc.is_blocklisted(to_block_account.clone()), false);
    assert_eq!(blocked, Blocklist { account_id: to_block_account.clone() });
    assert_eq!(unblocked, Unblocklist { account_id: to_block_account });
}

#[test]
fn test_blocklist_not_blocklister() {
    let mut usdc = init_contract();
    let to_block_account = account("block_me");
    init_account(&mut usdc, to_block_account.clone(), Some(100));

    assert_eq!(usdc.is_blocklisted(to_block_account.clone()), false);
    let error = usdc.blocklist(&minter(), to_block_account.clone()).unwrap_err();

    assert_eq!(error.message(), "FiatToken: caller is not a Blocklister");
    assert_eq!(usdc.is_blocklisted(to_block_account), false);
}

#[test]
fn test_update_blocklister() {
    let mut usdc = init_contract();
    let new_blocklister_account = account("new_blocklister");
    init_account(&mut usdc, new_blocklister_account.clone(), Some(100));

    assert_eq!(usdc.blocklister(), blocklister());
    let event = usdc.update_blocklister(&owner(), new_blocklister_account.clone()).unwrap();
    assert_eq!(usdc.blocklister(), new_blocklister_account);
    assert_eq!(
        event,
        BlocklisterChanged { new_blocklister_id: new_blocklister_account.clone() }
    );
    assert!(usdc.has_role(&new_blocklister_account, Role::Blocklister));
    assert!(!usdc.has_role(&blocklister(), Role::Blocklister));
}

#[test]
fn test_update_blocklister_not_owner() {
    let mut usdc = init_contract();
    let not_owner_account = account("not_owner");

    assert_eq!(usdc.blocklister(), blocklister());
    let error = usdc.update_blocklister(&controller(), not_owner_account).unwrap_err();

    assert_eq!(error.message(), "FiatToken: caller is not a Owner");
    assert_eq!(usdc.blocklister(), blocklister());
}

#[test]
fn test_configure_owner() {
    let mut usdc = init_contract();
    let new_owner_id = account("new_owner");

    let event = usdc.configure_multisig_role(&owner(), Role::Owner, new_owner_id.clone()).unwrap();

    assert!(usdc.owners().contains(&new_owner_id));
    assert_eq!(event, RoleConfigured { role: Role::Owner, account_id: new_owner_id });
    assert_eq!(event.role.name(), "Owner");
}

#[test]
fn test_configure_admin() {
    let mut usdc = init_contract();
    let new_admin_id = account("new_admin");

    let event = usdc.configure_multisig_role(&admin(), Role::Admin, new_admin_id.clone()).unwrap();

    assert!(usdc.admins().contains(&new_admin_id));
    assert_eq!(event, RoleConfigured { role: Role::Admin, account_id: new_admin_id });
    assert_eq!(event.role.name(), "Admin");
}

#[test]
fn test_remove_multisig_request() {
    let mut usdc = init_contract();
    let request_id: u32 = usdc.get_next_multisig_request_id();
    let update_master_minter_action = FiatTokenAction::ConfigureMultisigRole {
        role: Role::MasterMinter,
        account_id: account("new_master_minter"),
    };
    usdc.create_multisig_request(&owner(), update_master_minter_action, NOW).unwrap();

    let error = usdc.remove_multisig_request(&owner(), request_id, NOW).unwrap_err();

    assert_eq!(error, FiatTokenError::RemovalNotAllowed(RemovalError::RequestStillValid));
    assert_eq!(format!("{:?}", error), "RemovalNotAllowed(RequestStillValid)");
    assert!(usdc.request_action(request_id).is_some());
}

#[test]
fn test_create_multisig_request_missing_role() {
    let mut usdc = init_contract();
    let new_master_minter_id = account("new_master_minter");
    let update_master_minter_action = FiatTokenAction::ConfigureMultisigRole {
        role: Role::MasterMinter,
        account_id: new_master_minter_id.clone(),
    };
    usdc._grant_multisig_role(new_master_minter_id, Role::Controller);

    let error =
        usdc.create_multisig_request(&controller(), update_master_minter_action, NOW).unwrap_err();

    assert_eq!(error.message(), "FiatToken: caller is not a Owner");
    assert_eq!(usdc.get_next_multisig_request_id(), 0);
}

#[test]
fn test_multisig_update_blocklister_insufficient_approvals() {
    let mut usdc = init_contract();
    let update_blocklister_action =
        FiatTokenAction::UpdateBlocklister { new_blocklister_id: account("new_blocklister") };
    usdc.configure_multisig_role(&owner(), Role::Owner, account("owner2")).unwrap();

    let created = usdc.create_multisig_request(&owner(), update_blocklister_action, NOW).unwrap();
    let update_blocklister_request_id: u32 = created.request_id;
    usdc.approve_multisig_request(&owner(), update_blocklister_request_id, NOW).unwrap();
    assert_eq!(created, MultisigRequestCreated { request_id: 0 });
    let error =
        usdc.execute_multisig_request(&owner(), update_blocklister_request_id, NOW).unwrap_err();

    assert_eq!(error, FiatTokenError::InsufficientApprovals { current: 1, required: 2 });
    assert_eq!(format!("{:?}", error), "InsufficientApprovals { current: 1, required: 2 }");
    assert_eq!(
        error.message(),
        "Insufficient approvals on request: required 2 but only has 1"
    );
    assert_eq!(usdc.blocklister(), blocklister());
}

#[test]
fn test_multisig_update_blocklister_same_approver() {
    let mut usdc = init_contract();
    let update_blocklister_action =
        FiatTokenAction::UpdateBlocklister { new_blocklister_id: account("new_blocklister") };

    let update_blocklister_request_id: u32 = usdc
        .create_multisig_request(&owner(), update_blocklister_action, NOW)
        .unwrap()
        .request_id;
    usdc.approve_multisig_request(&owner(), update_blocklister_request_id, NOW).unwrap();
    let error =
        usdc.approve_multisig_request(&owner(), update_blocklister_request_id, NOW).unwrap_err();

    assert_eq!(error, FiatTokenError::AlreadyApproved);
    assert_eq!(error.message(), "Already approved by this account");
    assert_eq!(usdc.request_approvals(update_blocklister_request_id), Some(vec![owner()]));
}

#[test]
fn test_multisig_configure_pauser_grant_then_revoke_role() {
    let mut usdc = init_contract();
    let configure_pauser_action = FiatTokenAction::ConfigureMultisigRole {
        role: Role::Pauser,
        account_id: account("new_pauser"),
    };

    // Only an owner can propose a new pauser; a pauser cannot.
    let error = usdc.create_multisig_request(&pauser(), configure_pauser_action, NOW).unwrap_err();

    assert_eq!(error.message(), "FiatToken: caller is not a Owner");
}

#[test]
fn test_multisig_configure_minter_allowance() {
    let mut usdc = init_contract();
    let minter2 = account("minter2");
    let controller2a = account("controller2a");
    let controller2b = account("controller2b");
    usdc.configure_controller(&master_minter(), controller2a.clone(), minter2.clone()).unwrap();
    usdc.configure_controller(&master_minter(), controller2b.clone(), minter2.clone()).unwrap();
    let configure_minter_allowance_action = FiatTokenAction::ConfigureMinterAllowance {
        controller_id: controller2a.clone(),
        minter_allowance: 12345,
    };

    let created = usdc
        .create_multisig_request(&controller2a, configure_minter_allowance_action, NOW)
        .unwrap();
    let configure_minter_allowance_request_id: u32 = created.request_id;
    usdc.approve_multisig_request(&controller2a, configure_minter_allowance_request_id, NOW)
        .unwrap();
    assert_eq!(created, MultisigRequestCreated { request_id: 0 });
    usdc.approve_multisig_request(&controller2b, configure_minter_allowance_request_id, NOW)
        .unwrap();
    let event = usdc
        .execute_multisig_request(&controller2b, configure_minter_allowance_request_id, NOW)
        .unwrap();

    assert!(usdc.is_minter(&minter2));
    assert_eq!(
        event,
        FiatTokenEvent::MinterConfigured(MinterConfigured {
            minter_id: minter2.clone(),
            minter_allowance: 12345
        })
    );
    assert_eq!(usdc.minter_allowance(&minter2), 12345);
    assert_eq!(usdc.request_action(configure_minter_allowance_request_id), None);
}

#[test]
fn test_multisig_only_approve_requests_to_configure_own_minter() {
    let mut usdc = init_contract();
    let minter2 = account("minter2");
    let controller2 = account("controller2");
    usdc.configure_controller(&master_minter(), controller2.clone(), minter2).unwrap();
    let configure_minter_allowance_action = FiatTokenAction::ConfigureMinterAllowance {
        controller_id: controller2.clone(),
        minter_allowance: 12345,
    };

    // The default controller proposes a change to the minter of another
    // controller, and then tries to approve it.
    let configure_minter_allowance_request_id: u32 = usdc
        .create_multisig_request(&controller(), configure_minter_allowance_action, NOW)
        .unwrap()
        .request_id;
    let error = usdc
        .approve_multisig_request(&controller(), configure_minter_allowance_request_id, NOW)
        .unwrap_err();

    assert_eq!(error, FiatTokenError::WrongController { operation: RequestOperation::Approve });
    assert_eq!(
        error.message(),
        "FiatToken: can only approve requests to configure the allowance of your own minter"
    );
}

#[test]
fn test_multisig_decrease_minter_allowance() {
    let mut usdc = init_contract();
    let minter2 = account("minter2");
    let controller2a = account("controller2a");
    let controller2b = account("controller2b");
    usdc.configure_controller(&master_minter(), controller2a.clone(), minter2.clone()).unwrap();
    usdc.configure_controller(&master_minter(), controller2b.clone(), minter2.clone()).unwrap();
    let dec_minter_allowance_action = FiatTokenAction::DecreaseMinterAllowance {
        controller_id: controller2b.clone(),
        decrement: 50,
    };

    usdc.configure_minter_allowance(&controller2b, 51).unwrap();
    let dec_minter_allowance_request_id: u32 = usdc
        .create_multisig_request(&controller2b, dec_minter_allowance_action, NOW)
        .unwrap()
        .request_id;
    usdc.approve_multisig_request(&controller2b, dec_minter_allowance_request_id, NOW).unwrap();

    usdc.approve_multisig_request(&controller2a, dec_minter_allowance_request_id, NOW).unwrap();
    let event =
        usdc.execute_multisig_request(&controller2a, dec_minter_allowance_request_id, NOW).unwrap();

    assert_eq!(
        event,
        FiatTokenEvent::MinterConfigured(MinterConfigured {
            minter_id: minter2.clone(),
            minter_allowance: 1
        })
    );
    assert_eq!(usdc.minter_allowance(&minter2), 1);
}

#[test]
fn test_get_next_multisig_request_id() {
    let mut usdc = init_contract();
    let update_pauser_action = FiatTokenAction::ConfigureMultisigRole {
        role: Role::Pauser,
        account_id: account("new_pauser"),
    };
    // The first request of a contract always gets the identifier 0.
    assert_eq!(usdc.get_next_multisig_request_id(), 0);

    let update_pauser_request_id: u32 =
        usdc.create_multisig_request(&owner(), update_pauser_action, NOW).unwrap().request_id;

    assert_eq!(update_pauser_request_id, 0);
    // The identifier 0 is used up, so the next one is 1.
    assert_eq!(usdc.get_next_multisig_request_id(), 1);
}

#[test]
fn test_approve_for_upgrade() {
    let mut usdc = init_contract();
    let approve_for_upgrade_action = FiatTokenAction::ApproveForUpgrade;
    let admin2 = account("admin2");
    usdc.configure_multisig_role(&admin(), Role::Admin, admin2.clone()).unwrap();

    let approve_for_upgrade_action_request_id: u32 = usdc
        .create_multisig_request(&admin(), approve_for_upgrade_action, NOW)
        .unwrap()
        .request_id;
    usdc.approve_multisig_request(&admin(), approve_for_upgrade_action_request_id, NOW).unwrap();
    usdc.approve_multisig_request(&admin2, approve_for_upgrade_action_request_id, NOW).unwrap();
    let event = usdc
        .execute_multisig_request(&admin2, approve_for_upgrade_action_request_id, NOW)
        .unwrap();

    assert_eq!(event, FiatTokenEvent::ApprovedForUpgrade(ApprovedForUpgrade));
    assert_eq!(usdc.is_approved_for_upgrade(), true);
}

#[test]
fn test_storage_deposit() {
    let usdc = init_contract();

    assert_eq!(usdc.storage_deposit(&accounts(0), Some(&accounts(0))), Ok(()));
}

#[test]
fn test_storage_deposit_none_account_passed() {
    let usdc = init_contract();

    assert_eq!(usdc.storage_deposit(&accounts(0), None), Ok(()));
}

#[test]
fn test_storage_deposit_caller_blocklisted() {
    let mut usdc = init_contract();
    let blocklisted_account = accounts(0);
    _blocklist(&mut usdc, blocklisted_account.clone());

    let error = usdc.storage_deposit(&blocklisted_account, Some(&accounts(1))).unwrap_err();

    assert_eq!(error, FiatTokenError::Blocklisted { account_id: accounts(0) });
    assert_eq!(error.message(), "FiatToken: alice is blocklisted");
}

#[test]
fn test_storage_deposit_beneficiary_blocklisted() {
    let mut usdc = init_contract();
    let blocklisted_account = accounts(1);
    _blocklist(&mut usdc, blocklisted_account);

    let error = usdc.storage_deposit(&accounts(0), Some(&accounts(1))).unwrap_err();

    assert_eq!(error.message(), "FiatToken: bob is blocklisted");
}

#[test]
fn test_storage_unregister() {
    let usdc = init_contract();

    // A registered account without tokens.
    assert_eq!(usdc.storage_unregister(&accounts(0), Some(false), Some(0)), Ok(true));
}

#[test]
fn test_storage_unregister_force_not_allowed() {
    let usdc = init_contract();

    let error = usdc.storage_unregister(&accounts(0), Some(true), None).unwrap_err();

    assert_eq!(error, FiatTokenError::ForcedUnregister);
    assert_eq!(error.message(), "FiatToken: cannot force storage unregister");
}

#[test]
fn test_storage_unregister_not_registered() {
    let usdc = init_contract();

    assert_eq!(usdc.storage_unregister(&accounts(0), Some(false), None), Ok(false));
}

#[test]
fn test_storage_unregister_caller_blocklisted() {
    let mut usdc = init_contract();
    _blocklist(&mut usdc, accounts(0));

    let error = usdc.storage_unregister(&accounts(0), Some(false), Some(0)).unwrap_err();

    assert_eq!(error.message(), "FiatToken: alice is blocklisted");
}

#[test]
fn test_storage_unregister_cannot_unregister_with_positive_balance() {
    let mut usdc = init_contract();
    init_account(&mut usdc, accounts(0), Some(123));

    let error = usdc.storage_unregister(&accounts(0), Some(false), Some(123)).unwrap_err();

    assert_eq!(error, FiatTokenError::PositiveBalance);
    assert_eq!(
        error.message(),
        "FiatToken: cannot unregister an account with a positive balance"
    );
}
