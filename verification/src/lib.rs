//! Dispatch gates for batched prefill of warm continuations: the env-flag
//! contract and the break-even arithmetic that decides when a batched prefill
//! is expected to beat per-token prefill of the new suffix.

pub mod batch_cont_prefill;
