pub mod text;
pub mod json;
pub mod conventional;
pub mod message;
pub mod changelog;
pub mod release;
pub mod release_check;
pub mod release_prepare;
pub mod commit;
pub mod process;
pub mod version;
pub mod git;
pub mod jj;
pub mod cli;
pub mod cli_laws;
pub mod github;
pub mod latest;
pub mod provider;
pub mod check_commit;
pub mod checks;
pub mod submit;
pub mod finishing;
