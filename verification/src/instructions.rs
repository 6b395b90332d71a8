//! The two instructions of the program.

pub mod initialize_user;
pub mod update_score;

pub use initialize_user::initialize_user;
pub use initialize_user::initialize_user_at;
pub use initialize_user::InitializeUser;
pub use update_score::check_update;
pub use update_score::update_score;
pub use update_score::update_score_at;
pub use update_score::UpdateScore;
