//! Messages handed to the task that serves one DeepLynx data source.

use vstd::prelude::*;

verus! {

/// What a data-source task is asked to do.
#[derive(Debug)]
pub enum DataSourceMessage {
    /// Upload the file at this path.
    File(String),
    /// Upload these raw bytes.
    Data(Vec<u8>),
    /// Stop serving the data source.
    Close,
}

} // verus!
