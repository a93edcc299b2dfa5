//! State transition types.

use vstd::prelude::*;

verus! {

/// Agreement data.
#[derive(Clone, Debug, PartialEq, Eq)]
pub struct AgreementData {
    /// User id.
    pub user_id: String,
    /// Agreement id.
    pub agreement_id: String,
    /// Agreement source.
    pub source: String,
    /// Timestamp as nonce.
    pub timestamp: i64,
}

/// Agreement data as a mathematical value.
pub struct AgreementDataView {
    pub user_id: Seq<char>,
    pub agreement_id: Seq<char>,
    pub source: Seq<char>,
    pub timestamp: i64,
}

impl View for AgreementData {
    type V = AgreementDataView;

    open spec fn view(&self) -> AgreementDataView {
        AgreementDataView {
            user_id: self.user_id@,
            agreement_id: self.agreement_id@,
            source: self.source@,
            timestamp: self.timestamp,
        }
    }
}

} // verus!
