pub mod deposit_fee;
pub mod deposit_sol;
pub mod deposit_usdc;
pub mod execute_signal;
pub mod initialize_user;
pub mod update_profile;
pub mod withdraw_fee;
pub mod withdraw_sol;
pub mod withdraw_usdc;
