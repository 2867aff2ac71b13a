//! Verified core of a binding to the Chromaprint audio fingerprinting library.

pub mod algorithm;
pub mod context;
pub mod error;
pub mod fingerprint;
pub mod sys;

pub use algorithm::Algorithm;
pub use context::{ChromaprintOption, Context, FeedCall, OptionCall};
pub use error::{check_ret, convert_chromaprint_size, ChromaprintError};
pub use fingerprint::{DecodeCall, EncodeCall, Fingerprint, HashCall, RawReply};
pub use sys::{ChromaprintAlgorithm, ChromaprintContext};
