//! Ownership and borrowing in small, verified steps: measuring a borrowed
//! string, extending one through a mutable borrow, and handing values out
//! by move or by copy.

mod emprestimo;

pub use emprestimo::{byte_len, calculate_length, dar_e_devolver_ownership, mudar_mutavel, parte5};
