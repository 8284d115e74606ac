use vstd::prelude::*;

verus! {

/// One record of the watched collection. The pipeline treats a record as an
/// opaque structured document; all it needs is that the document can be
/// serialized. Here the schema is a pair of UTF-8 byte strings.
pub struct Record {
    pub email: Vec<u8>,
    pub password: Vec<u8>,
}

/// Mathematical model of a [`Record`]: the contents of its two fields.
pub struct RecordView {
    pub email: Seq<u8>,
    pub password: Seq<u8>,
}

impl View for Record {
    type V = RecordView;

    open spec fn view(&self) -> RecordView {
        RecordView { email: self.email@, password: self.password@ }
    }
}

/// The models of a sequence of records.
pub open spec fn views(rs: Seq<Record>) -> Seq<RecordView> {
    rs.map(|i: int, r: Record| r@)
}

/// Why a snapshot fetch did not complete: the read against the backing
/// store could not finish (connection lost, timeout). The cycle that hit
/// it is skipped; the pipeline keeps running.
pub enum FetchError {
    StorageUnavailable,
}

} // verus!
