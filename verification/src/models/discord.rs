pub mod guild;
