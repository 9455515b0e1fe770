//! Opaque-data blocks carried by key-exchange messages: the fixed
//! blobs a requester advertises its secured-message versions with,
//! and the resolution of the responder's secure-version selection.

use vstd::prelude::*;

verus! {

/// Fixed opaque blob advertising the secured-message version list in
/// the legacy form used by negotiated versions before 1.2.
pub open spec fn spec_opaque_version_list_legacy() -> Seq<u8> {
    seq![0x01u8, 0x00u8, 0x02u8, 0x00u8, 0x10u8, 0x00u8, 0x11u8, 0x00u8]
}

pub fn req_opaque_version_list_legacy() -> (r: Vec<u8>)
    ensures
        r@ == spec_opaque_version_list_legacy(),
{
    let mut v: Vec<u8> = Vec::new();
    v.push(0x01);
    v.push(0x00);
    v.push(0x02);
    v.push(0x00);
    v.push(0x10);
    v.push(0x00);
    v.push(0x11);
    v.push(0x00);
    assert(v@ =~= spec_opaque_version_list_legacy());
    v
}

/// Fixed opaque blob advertising the secured-message version list in
/// general opaque format 1, used from negotiated version 1.2 on.
pub open spec fn spec_opaque_version_list_fmt1() -> Seq<u8> {
    seq![0x46u8, 0x54u8, 0x4Du8, 0x44u8, 0x01u8, 0x00u8, 0x02u8, 0x00u8, 0x10u8, 0x00u8, 0x11u8]
}

pub fn req_opaque_version_list_fmt1() -> (r: Vec<u8>)
    ensures
        r@ == spec_opaque_version_list_fmt1(),
{
    let mut v: Vec<u8> = Vec::new();
    v.push(0x46);
    v.push(0x54);
    v.push(0x4D);
    v.push(0x44);
    v.push(0x01);
    v.push(0x00);
    v.push(0x02);
    v.push(0x00);
    v.push(0x10);
    v.push(0x00);
    v.push(0x11);
    assert(v@ =~= spec_opaque_version_list_fmt1());
    v
}

/// The secure-version selection a responder's opaque block resolves
/// to: a block starting with the selection marker carries the chosen
/// version in its eighth byte; anything else selects 0.
pub open spec fn spec_secure_version_from_opaque(opaque: Seq<u8>) -> u8 {
    if opaque.len() >= 8 && opaque[0] == 0x46 && opaque[1] == 0x54 && opaque[2] == 0x4D
        && opaque[3] == 0x44 && opaque[4] == 0x01 && opaque[5] == 0x01 && opaque[6] == 0x00 {
        opaque[7]
    } else {
        0
    }
}

pub fn secure_version_from_opaque(opaque: &[u8]) -> (r: u8)
    ensures
        r == spec_secure_version_from_opaque(opaque@),
{
    if opaque.len() >= 8 {
        let m = *vstd::slice::slice_index_get(opaque, 0) == 0x46 && *vstd::slice::slice_index_get(
            opaque,
            1,
        ) == 0x54 && *vstd::slice::slice_index_get(opaque, 2) == 0x4D
            && *vstd::slice::slice_index_get(opaque, 3) == 0x44 && *vstd::slice::slice_index_get(
            opaque,
            4,
        ) == 0x01 && *vstd::slice::slice_index_get(opaque, 5) == 0x01
            && *vstd::slice::slice_index_get(opaque, 6) == 0x00;
        if m {
            *vstd::slice::slice_index_get(opaque, 7)
        } else {
            0
        }
    } else {
        0
    }
}

} // verus!
