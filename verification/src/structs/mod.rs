pub mod claims;
pub mod data_prompt;
pub mod login_form;
pub mod ml_result;
pub mod user_history;
pub mod user_struct;

pub use claims::Claims;
pub use data_prompt::DataPrompt;
pub use login_form::LoginForm;
pub use ml_result::MlRequestResult;
pub use user_history::UserHistory;
pub use user_struct::{NewAccount, User};
