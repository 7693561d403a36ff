//! The origin of a transaction.
use crate::utils::DynamicSizeEvent;
use crate::wire::{
    be_i64, c_string_text, i64_be_bytes, lemma_be_i64_bytes, lemma_c_string_of, lossy_text,
    read_c_string, read_i64,
};
use vstd::prelude::*;

verus! {

/// The origin of the transaction that follows.
#[derive(Debug)]
pub struct Origin {
    pub commit_lsn: i64,
    pub origin: String,
}

/// The byte that announces an origin (`'O'`).
pub const TYPE_DESCRIMINATOR: u8 = 0x4f;

/// The view of an `Origin`.
pub struct OriginView {
    pub commit_lsn: i64,
    pub origin: Seq<char>,
}

impl View for Origin {
    type V = OriginView;

    open spec fn view(&self) -> OriginView {
        OriginView { commit_lsn: self.commit_lsn, origin: self.origin@ }
    }
}

impl DynamicSizeEvent for Origin {
    const MIN_BUFFER_SIZE: usize = 8 + 1;

    const EVENT_NAME: &'static str = "pgoutput::events::origin::Origin";

    open spec fn spec_min_buffer_size() -> usize {
        9
    }

    open spec fn spec_event_name() -> Seq<char> {
        "pgoutput::events::origin::Origin"@
    }

    proof fn lemma_constants() {
    }

    open spec fn spec_decodable(buffer: Seq<u8>) -> bool {
        buffer.len() >= 8
    }

    fn is_decodable(buffer: &[u8]) -> (r: bool) {
        buffer.len() >= 8
    }

    open spec fn spec_from_buffer(buffer: Seq<u8>) -> OriginView {
        OriginView { commit_lsn: be_i64(buffer, 0), origin: c_string_text(buffer.skip(8)) }
    }

    fn from_buffer(buffer: &[u8]) -> (r: Origin) {
        Origin { commit_lsn: read_i64(buffer, 0), origin: read_c_string(buffer, 8) }
    }
}

/// An origin body made of the commit LSN, the origin name's bytes and its
/// NUL decodes to that LSN and to the name up to its NUL, whatever follows.
pub proof fn lemma_origin_round_trip(commit_lsn: i64, name: Seq<u8>, rest: Seq<u8>)
    requires
        forall|j: int| 0 <= j < name.len() ==> name[j] != 0,
    ensures
        ({
            let b = i64_be_bytes(commit_lsn) + name + seq![0u8] + rest;
            &&& b.len() >= Origin::spec_min_buffer_size()
            &&& Origin::spec_decodable(b)
            &&& Origin::spec_from_buffer(b) == OriginView { commit_lsn, origin: lossy_text(name) }
        }),
{
    let b = i64_be_bytes(commit_lsn) + name + seq![0u8] + rest;
    assert(b.subrange(0, 8) =~= i64_be_bytes(commit_lsn));
    lemma_be_i64_bytes(b, 0, commit_lsn);
    assert(b.skip(8) =~= name + seq![0u8] + rest);
    lemma_c_string_of(name, rest);
}

} // verus!
