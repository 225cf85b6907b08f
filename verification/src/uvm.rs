use vstd::prelude::*;
use crate::config::IoctlDecodeMode;
use crate::json::{quote, object_text, members_state, lemma_object_text, JsonObject, empty_object_state};
use crate::uvm_fields::{layout_members, hex_bytes_text, push_hex_bytes, push_layout_members};
use crate::uvm_table::{uvm_params, uvm_params_layout, normalized, normalize_uvm_cmd, UVM_DEINITIALIZE};

verus! {

/// What a decoder produces for one ioctl: a legacy text line and a JSON object.
pub struct DecodeSummary {
    pub legacy: String,
    pub json: String,
}

/// The number of bytes shown for a command without a decoder.
pub open spec fn blob_len(max_blob: nat) -> nat {
    let m = if max_blob > 16 { max_blob } else { 16 };
    if m < 64 { m } else { 64 }
}

/// Whether the decoder stops before it reads the parameter block.
pub open spec fn decided_without_params(cmd: u64, mode: IoctlDecodeMode, arg_null: bool) -> bool {
    mode == IoctlDecodeMode::Header || normalized(cmd) == UVM_DEINITIALIZE || arg_null
}

/// How many bytes of the parameter block the decoder needs, if it needs any.
pub open spec fn uvm_read_request(cmd: u64, mode: IoctlDecodeMode, arg_null: bool, max_blob: nat) -> Option<nat> {
    if decided_without_params(cmd, mode, arg_null) {
        None
    } else {
        match uvm_params(cmd) {
            Some(p) => Some(p.0),
            None => Some(blob_len(max_blob)),
        }
    }
}

pub open spec fn status_member(s: Seq<char>) -> (Seq<char>, Seq<char>) {
    ("status"@, quote(s))
}

/// The members of the JSON object written for a UVM ioctl.
/// `arg` is the parameter block as read from the caller's memory, or `None` where it could not be read.
pub open spec fn uvm_members(
    cmd: u64,
    mode: IoctlDecodeMode,
    arg_null: bool,
    arg: Option<Seq<u8>>,
    max_blob: nat,
) -> Seq<(Seq<char>, Seq<char>)> {
    if mode == IoctlDecodeMode::Header {
        seq![status_member("header"@)]
    } else if normalized(cmd) == UVM_DEINITIALIZE {
        seq![status_member("ok"@)]
    } else if arg_null {
        seq![status_member("arg_null"@)]
    } else {
        match uvm_params(cmd) {
            Some(p) => match arg {
                Some(b) => if b.len() >= p.0 {
                    layout_members(p.1, b) + seq![status_member("ok"@)]
                } else {
                    seq![status_member("arg_unreadable"@)]
                },
                None => seq![status_member("arg_unreadable"@)],
            },
            None => match arg {
                Some(b) => if b.len() >= blob_len(max_blob) {
                    seq![
                        ("blob_hex"@, quote(hex_bytes_text(b.take(blob_len(max_blob) as int)))),
                        status_member("unknown_cmd"@),
                    ]
                } else {
                    seq![status_member("arg_unreadable"@)]
                },
                None => seq![status_member("arg_unreadable"@)],
            },
        }
    }
}

proof fn lemma_one_member(members: Seq<(Seq<char>, Seq<char>)>)
    requires
        members.len() == 1,
    ensures
        members_state(members) == crate::json::push_member(empty_object_state(), members[0].0, members[0].1),
{
    assert(members.drop_last() =~= Seq::<(Seq<char>, Seq<char>)>::empty());
    assert(members_state(Seq::<(Seq<char>, Seq<char>)>::empty()) == empty_object_state());
    assert(members.last() == members[0]);
}

/// How many bytes of the parameter block to read before decoding, or `None`
/// where the decoder needs none.
pub fn uvm_read_len(cmd: u64, decode_mode: IoctlDecodeMode, arg_null: bool, max_blob: usize) -> (r: Option<usize>)
    ensures
        r is Some <==> uvm_read_request(cmd, decode_mode, arg_null, max_blob as nat) is Some,
        r is Some ==> r.unwrap() as nat == uvm_read_request(cmd, decode_mode, arg_null, max_blob as nat).unwrap(),
{
    if decode_mode == IoctlDecodeMode::Header || normalize_uvm_cmd(cmd) == UVM_DEINITIALIZE || arg_null {
        return None;
    }
    match uvm_params_layout(cmd) {
        Some(p) => Some(p.0),
        None => Some(unknown_blob_len(max_blob)),
    }
}

fn unknown_blob_len(max_blob: usize) -> (r: usize)
    ensures
        r as nat == blob_len(max_blob as nat),
{
    let m = if max_blob > 16 { max_blob } else { 16 };
    if m < 64 { m } else { 64 }
}

/// Decodes a UVM ioctl into a JSON object: its parameters member by member and a `status`.
/// `arg` is the parameter block read from the caller (see `uvm_read_len`), or `None`
/// where it could not be read.
pub fn decode_uvm_ioctl(
    cmd: u64,
    decode_mode: IoctlDecodeMode,
    arg_null: bool,
    arg: Option<&[u8]>,
    max_blob: usize,
) -> (r: Option<DecodeSummary>)
    ensures
        r is Some,
        r.unwrap().legacy@ == Seq::<char>::empty(),
        r.unwrap().json@ == object_text(
            uvm_members(cmd, decode_mode, arg_null, match arg { Some(b) => Some(b@), None => None }, max_blob as nat),
        ),
{
    let ghost argv = match arg { Some(b) => Some(b@), None => None };
    let ghost members = uvm_members(cmd, decode_mode, arg_null, argv, max_blob as nat);
    let mut root = JsonObject::new();
    proof {
        assert(members_state(Seq::<(Seq<char>, Seq<char>)>::empty()) == empty_object_state());
    }
    if decode_mode == IoctlDecodeMode::Header {
        root.field_str("status", "header");
        proof { lemma_one_member(members); }
    } else if normalize_uvm_cmd(cmd) == UVM_DEINITIALIZE {
        root.field_str("status", "ok");
        proof { lemma_one_member(members); }
    } else if arg_null {
        root.field_str("status", "arg_null");
        proof { lemma_one_member(members); }
    } else {
        match uvm_params_layout(cmd) {
            Some(p) => {
                let (size, layout) = p;
                match arg {
                    Some(b) => {
                        if b.len() >= size {
                            push_layout_members(&mut root, &layout, b, Ghost(Seq::empty()));
                            root.field_str("status", "ok");
                            proof {
                                let lm = Seq::<(Seq<char>, Seq<char>)>::empty() + layout_members(layout@, b@);
                                assert(lm =~= layout_members(layout@, b@));
                                assert(members.drop_last() =~= lm);
                                assert(root@ == members_state(members));
                            }
                        } else {
                            root.field_str("status", "arg_unreadable");
                            proof { lemma_one_member(members); }
                        }
                    },
                    None => {
                        root.field_str("status", "arg_unreadable");
                        proof { lemma_one_member(members); }
                    },
                }
            },
            None => {
                match arg {
                    Some(b) => {
                        let want = unknown_blob_len(max_blob);
                        if b.len() >= want {
                            let mut hexs = String::new();
                            push_hex_bytes(&mut hexs, &b[0..want]);
                            root.field_str("blob_hex", hexs.as_str());
                            root.field_str("status", "unknown_cmd");
                            proof {
                                lemma_one_member(members.drop_last());
                                assert(root@ == members_state(members));
                            }
                        } else {
                            root.field_str("status", "arg_unreadable");
                            proof { lemma_one_member(members); }
                        }
                    },
                    None => {
                        root.field_str("status", "arg_unreadable");
                        proof { lemma_one_member(members); }
                    },
                }
            },
        }
    }
    proof {
        lemma_object_text(members);
    }
    let json = root.finish();
    Some(DecodeSummary { legacy: String::new(), json })
}

/// Only the lower 32 bits of a command number matter: the bytes read and the JSON
/// written are those of the command with its upper bits cleared.
pub proof fn lemma_decode_ignores_high_bits(
    cmd: u64,
    mode: IoctlDecodeMode,
    arg_null: bool,
    arg: Option<Seq<u8>>,
    max_blob: nat,
)
    ensures
        uvm_members(cmd, mode, arg_null, arg, max_blob) == uvm_members(normalized(cmd), mode, arg_null, arg, max_blob),
        uvm_read_request(cmd, mode, arg_null, max_blob) == uvm_read_request(normalized(cmd), mode, arg_null, max_blob),
        crate::uvm_table::cmd_name(cmd) == crate::uvm_table::cmd_name(normalized(cmd)),
{
    assert(normalized(normalized(cmd)) == normalized(cmd));
}


/// The blob shown for a command without a decoder holds between 16 and 64 bytes: the
/// configured limit where it lies in that range, else the nearer bound.
pub proof fn lemma_blob_len_clamped(max_blob: nat)
    ensures
        16 <= blob_len(max_blob) <= 64,
        16 <= max_blob <= 64 ==> blob_len(max_blob) == max_blob,
        max_blob < 16 ==> blob_len(max_blob) == 16,
        max_blob > 64 ==> blob_len(max_blob) == 64,
{
}

/// The object written for a UVM ioctl always ends with its `status`, the only member in
/// header mode (`header`), for `UVM_DEINITIALIZE` (`ok`), for a null argument (`arg_null`)
/// and for a block that could not be read in full (`arg_unreadable`). A command without a
/// decoder whose block was read shows the block's first bytes in hexadecimal, then
/// `unknown_cmd`; a decoded command ends with `ok`.
pub proof fn lemma_decode_status(
    cmd: u64,
    mode: IoctlDecodeMode,
    arg_null: bool,
    arg: Option<Seq<u8>>,
    max_blob: nat,
)
    ensures
        ({
            let m = uvm_members(cmd, mode, arg_null, arg, max_blob);
            let only = |st: Seq<char>| m == seq![("status"@, quote(st))];
            &&& m.len() >= 1
            &&& m.last().0 == "status"@
            &&& mode == IoctlDecodeMode::Header ==> only("header"@)
            &&& mode != IoctlDecodeMode::Header && cmd % 0x1_0000_0000 == 0x30000002 ==> only("ok"@)
            &&& mode != IoctlDecodeMode::Header && cmd % 0x1_0000_0000 != 0x30000002 && arg_null ==> only("arg_null"@)
            &&& mode != IoctlDecodeMode::Header && cmd % 0x1_0000_0000 != 0x30000002 && !arg_null ==> {
                &&& arg is None ==> only("arg_unreadable"@)
                &&& arg is Some && uvm_params(cmd) is Some && uvm_params(cmd).unwrap().0 > arg.unwrap().len()
                    ==> only("arg_unreadable"@)
                &&& arg is Some && uvm_params(cmd) is None && blob_len(max_blob) > arg.unwrap().len()
                    ==> only("arg_unreadable"@)
                &&& arg is Some && uvm_params(cmd) is None && arg.unwrap().len() >= blob_len(max_blob) ==> m == seq![
                    ("blob_hex"@, quote(hex_bytes_text(arg.unwrap().take(blob_len(max_blob) as int)))),
                    ("status"@, quote("unknown_cmd"@)),
                ]
                &&& arg is Some && uvm_params(cmd) is Some && arg.unwrap().len() >= uvm_params(cmd).unwrap().0
                    ==> m.last() == ("status"@, quote("ok"@))
            }
        }),
{
}

} // verus!
