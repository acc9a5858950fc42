pub mod exit_code;
