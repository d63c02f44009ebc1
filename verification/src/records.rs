//! Group and entry decoders: each repeatedly pulls type-length-value fields
//! from the shared reader and dispatches on the type code to fill one
//! record, accumulating into empty values until the terminator field ends
//! it. An unknown code fails the whole parse: the format defines no rule for
//! skipping fields it does not name.

use vstd::prelude::*;

use crate::datetime::format_date_time;
use crate::datetime::lemma_unpack_datetime_in_range;
use crate::datetime::parse_datetime_slice;
use crate::datetime::spec_format_datetime;
use crate::datetime::spec_unpack_datetime;
use crate::parser::Error;
use crate::parser::KdbEntry;
use crate::parser::KdbEntryView;
use crate::parser::KdbGroup;
use crate::parser::KdbGroupView;
use crate::strutil::from_utf8_lossy;
use crate::strutil::spec_lossy_utf8;
use crate::tlv::bytes_to_u32;
use crate::tlv::read_field;
use crate::tlv::slice_to_u32;
use crate::tlv::spec_le32;
use crate::tlv::spec_read_field;

verus! {

/// A group before any field has been seen: zero identifier, empty strings.
pub open spec fn spec_empty_group() -> KdbGroupView {
    KdbGroupView {
        group_id: 0,
        group_name: Seq::empty(),
        created: Seq::empty(),
        modified: Seq::empty(),
        accessed: Seq::empty(),
        expires: Seq::empty(),
    }
}

/// The timestamp string a packed date field yields, or `InvalidDateTime`
/// when the payload is not exactly five bytes.
pub open spec fn spec_date_field(d: Seq<u8>) -> Result<Seq<char>, Error> {
    if d.len() == 5 {
        Ok(spec_format_datetime(spec_unpack_datetime(d)))
    } else {
        Err(Error::InvalidDateTime { field_size: d.len() as u32 })
    }
}

/// What one field does to a group under construction. Codes 0 (ext data),
/// 7 (icon), 8 (level) and 9 (flags) are consumed and ignored.
pub open spec fn spec_apply_group_field(g: KdbGroupView, t: u16, d: Seq<u8>) -> Result<
    KdbGroupView,
    Error,
> {
    if t == 0x0000 {
        Ok(g)
    } else if t == 0x0001 {
        if d.len() == 4 {
            Ok(KdbGroupView { group_id: spec_le32(d), ..g })
        } else {
            Err(Error::InvalidFieldSize { field_type: t, field_size: d.len() as u32 })
        }
    } else if t == 0x0002 {
        Ok(KdbGroupView { group_name: spec_lossy_utf8(d), ..g })
    } else if t == 0x0003 {
        match spec_date_field(d) {
            Ok(s) => Ok(KdbGroupView { created: s, ..g }),
            Err(e) => Err(e),
        }
    } else if t == 0x0004 {
        match spec_date_field(d) {
            Ok(s) => Ok(KdbGroupView { modified: s, ..g }),
            Err(e) => Err(e),
        }
    } else if t == 0x0005 {
        match spec_date_field(d) {
            Ok(s) => Ok(KdbGroupView { accessed: s, ..g }),
            Err(e) => Err(e),
        }
    } else if t == 0x0006 {
        match spec_date_field(d) {
            Ok(s) => Ok(KdbGroupView { expires: s, ..g }),
            Err(e) => Err(e),
        }
    } else if t == 0x0007 || t == 0x0008 || t == 0x0009 {
        Ok(g)
    } else {
        Err(Error::UnknownFieldType { field_type: t, field_size: d.len() as u32 })
    }
}

/// One group read from `pos`: fields applied in stream order onto `acc`
/// until the terminator, whose own payload is consumed but discarded.
pub open spec fn spec_read_group_rec(b: Seq<u8>, pos: int, acc: KdbGroupView) -> Result<
    (KdbGroupView, int),
    Error,
>
    decreases b.len() - pos,
    when 0 <= pos
{
    match spec_read_field(b, pos) {
        Ok(f) => {
            if f.0 == 0xFFFFu16 {
                Ok((acc, f.2))
            } else {
                match spec_apply_group_field(acc, f.0, f.1) {
                    Ok(acc2) => spec_read_group_rec(b, f.2, acc2),
                    Err(e) => Err(e),
                }
            }
        },
        Err(e) => Err(e),
    }
}

/// One group read from `pos`, starting from the empty group.
pub open spec fn spec_read_group(b: Seq<u8>, pos: int) -> Result<(KdbGroupView, int), Error> {
    spec_read_group_rec(b, pos, spec_empty_group())
}

/// Decode one packed date field payload into its display string.
pub fn date_field(d: &[u8]) -> (r: Result<String, Error>)
    ensures
        match r {
            Ok(s) => spec_date_field(d@) == Ok::<Seq<char>, Error>(s@),
            Err(e) => spec_date_field(d@) == Err::<Seq<char>, Error>(e),
        },
{
    let dt = match parse_datetime_slice(d) {
        Ok(dt) => dt,
        Err(e) => {
            return Err(e);
        },
    };
    proof {
        lemma_unpack_datetime_in_range(d@);
    }
    Ok(format_date_time(&dt))
}

/// Read one group record from the stream.
pub fn read_group(data: &[u8], pos: &mut usize) -> (r: Result<KdbGroup, Error>)
    requires
        *old(pos) <= data@.len(),
    ensures
        *final(pos) <= data@.len(),
        match r {
            Ok(g) => spec_read_group(data@, *old(pos) as int) == Ok::<(KdbGroupView, int), Error>(
                (g@, *final(pos) as int),
            ),
            Err(e) => spec_read_group(data@, *old(pos) as int) == Err::<(KdbGroupView, int), Error>(
                e,
            ),
        },
{
    let mut group_id: u32 = 0;
    let mut group_name = String::new();
    let mut created = String::new();
    let mut modified = String::new();
    let mut accessed = String::new();
    let mut expires = String::new();
    loop
        invariant
            *pos <= data@.len(),
            *old(pos) <= data@.len(),
            spec_read_group_rec(
                data@,
                *pos as int,
                KdbGroupView {
                    group_id: group_id,
                    group_name: group_name@,
                    created: created@,
                    modified: modified@,
                    accessed: accessed@,
                    expires: expires@,
                },
            ) == spec_read_group(data@, *old(pos) as int),
        decreases data@.len() - *pos,
    {
        let ghost acc0 = KdbGroupView {
            group_id: group_id,
            group_name: group_name@,
            created: created@,
            modified: modified@,
            accessed: accessed@,
            expires: expires@,
        };
        let f = match read_field(data, pos) {
            Ok(f) => f,
            Err(e) => {
                return Err(e);
            },
        };
        let (field_type, field_data) = f;
        if field_type == 0xFFFF {
            let g = KdbGroup { group_id, group_name, created, modified, accessed, expires };
            proof {
                assert(g@ =~= acc0);
            }
            return Ok(g);
        }
        match field_type {
            0x0000 => {},
            0x0001 => {
                if field_data.len() != 4 {
                    return Err(Error::InvalidFieldSize {
                        field_type,
                        field_size: field_data.len() as u32,
                    });
                }
                group_id = bytes_to_u32(field_data.as_slice());
            },
            0x0002 => {
                group_name = from_utf8_lossy(field_data.as_slice());
            },
            0x0003 => {
                created = match date_field(field_data.as_slice()) {
                    Ok(s) => s,
                    Err(e) => {
                        return Err(e);
                    },
                };
            },
            0x0004 => {
                modified = match date_field(field_data.as_slice()) {
                    Ok(s) => s,
                    Err(e) => {
                        return Err(e);
                    },
                };
            },
            0x0005 => {
                accessed = match date_field(field_data.as_slice()) {
                    Ok(s) => s,
                    Err(e) => {
                        return Err(e);
                    },
                };
            },
            0x0006 => {
                expires = match date_field(field_data.as_slice()) {
                    Ok(s) => s,
                    Err(e) => {
                        return Err(e);
                    },
                };
            },
            0x0007 => {},
            0x0008 => {},
            0x0009 => {},
            _ => {
                return Err(Error::UnknownFieldType {
                    field_type,
                    field_size: field_data.len() as u32,
                });
            },
        }
        proof {
            let acc1 = KdbGroupView {
                group_id: group_id,
                group_name: group_name@,
                created: created@,
                modified: modified@,
                accessed: accessed@,
                expires: expires@,
            };
            let applied = spec_apply_group_field(acc0, field_type, field_data@);
            match applied {
                Ok(v) => {
                    assert(v =~= acc1);
                },
                Err(e) => {
                    assert(false);
                },
            }
        }
    }
}

/// An entry before any field has been seen: a zeroed identifier, empty
/// strings.
pub open spec fn spec_empty_entry() -> KdbEntryView {
    KdbEntryView {
        entry_id: Seq::new(16, |i: int| 0u8),
        group_id: 0,
        title: Seq::empty(),
        url: Seq::empty(),
        username: Seq::empty(),
        password: Seq::empty(),
        notes: Seq::empty(),
        created: Seq::empty(),
        modified: Seq::empty(),
        accessed: Seq::empty(),
        expires: Seq::empty(),
    }
}

/// The text an entry string field yields: the file format appends one
/// terminator byte, which is stripped before lossy decoding. A payload with
/// no room for the terminator is a size violation.
pub open spec fn spec_entry_string_field(t: u16, d: Seq<u8>) -> Result<Seq<char>, Error> {
    if d.len() == 0 {
        Err(Error::InvalidFieldSize { field_type: t, field_size: 0 })
    } else {
        Ok(spec_lossy_utf8(d.subrange(0, d.len() - 1)))
    }
}

/// What one field does to an entry under construction. Codes 0 (ext data),
/// 3 (icon), 13 (binary description) and 14 (binary data) are consumed and
/// ignored; the two binary payloads are read only to advance the stream.
pub open spec fn spec_apply_entry_field(g: KdbEntryView, t: u16, d: Seq<u8>) -> Result<
    KdbEntryView,
    Error,
> {
    if t == 0x0000 || t == 0x0003 || t == 0x000d || t == 0x000e {
        Ok(g)
    } else if t == 0x0001 {
        if d.len() == 16 {
            Ok(KdbEntryView { entry_id: d, ..g })
        } else {
            Err(Error::InvalidFieldSize { field_type: t, field_size: d.len() as u32 })
        }
    } else if t == 0x0002 {
        if d.len() == 4 {
            Ok(KdbEntryView { group_id: spec_le32(d), ..g })
        } else {
            Err(Error::InvalidFieldSize { field_type: t, field_size: d.len() as u32 })
        }
    } else if t == 0x0004 {
        match spec_entry_string_field(t, d) {
            Ok(s) => Ok(KdbEntryView { title: s, ..g }),
            Err(e) => Err(e),
        }
    } else if t == 0x0005 {
        match spec_entry_string_field(t, d) {
            Ok(s) => Ok(KdbEntryView { url: s, ..g }),
            Err(e) => Err(e),
        }
    } else if t == 0x0006 {
        match spec_entry_string_field(t, d) {
            Ok(s) => Ok(KdbEntryView { username: s, ..g }),
            Err(e) => Err(e),
        }
    } else if t == 0x0007 {
        match spec_entry_string_field(t, d) {
            Ok(s) => Ok(KdbEntryView { password: s, ..g }),
            Err(e) => Err(e),
        }
    } else if t == 0x0008 {
        match spec_entry_string_field(t, d) {
            Ok(s) => Ok(KdbEntryView { notes: s, ..g }),
            Err(e) => Err(e),
        }
    } else if t == 0x0009 {
        match spec_date_field(d) {
            Ok(s) => Ok(KdbEntryView { created: s, ..g }),
            Err(e) => Err(e),
        }
    } else if t == 0x000a {
        match spec_date_field(d) {
            Ok(s) => Ok(KdbEntryView { modified: s, ..g }),
            Err(e) => Err(e),
        }
    } else if t == 0x000b {
        match spec_date_field(d) {
            Ok(s) => Ok(KdbEntryView { accessed: s, ..g }),
            Err(e) => Err(e),
        }
    } else if t == 0x000c {
        match spec_date_field(d) {
            Ok(s) => Ok(KdbEntryView { expires: s, ..g }),
            Err(e) => Err(e),
        }
    } else {
        Err(Error::UnknownFieldType { field_type: t, field_size: d.len() as u32 })
    }
}

/// One entry read from `pos`: fields applied in stream order onto `acc`
/// until the terminator, whose own payload is consumed but discarded.
pub open spec fn spec_read_entry_rec(b: Seq<u8>, pos: int, acc: KdbEntryView) -> Result<
    (KdbEntryView, int),
    Error,
>
    decreases b.len() - pos,
    when 0 <= pos
{
    match spec_read_field(b, pos) {
        Ok(f) => {
            if f.0 == 0xFFFFu16 {
                Ok((acc, f.2))
            } else {
                match spec_apply_entry_field(acc, f.0, f.1) {
                    Ok(acc2) => spec_read_entry_rec(b, f.2, acc2),
                    Err(e) => Err(e),
                }
            }
        },
        Err(e) => Err(e),
    }
}

/// One entry read from `pos`, starting from the empty entry.
pub open spec fn spec_read_entry(b: Seq<u8>, pos: int) -> Result<(KdbEntryView, int), Error> {
    spec_read_entry_rec(b, pos, spec_empty_entry())
}

/// Decode one terminator-stripped entry string field payload.
fn entry_string_field(t: u16, d: &[u8]) -> (r: Result<String, Error>)
    ensures
        match r {
            Ok(s) => spec_entry_string_field(t, d@) == Ok::<Seq<char>, Error>(s@),
            Err(e) => spec_entry_string_field(t, d@) == Err::<Seq<char>, Error>(e),
        },
{
    if d.len() == 0 {
        return Err(Error::InvalidFieldSize { field_type: t, field_size: 0 });
    }
    Ok(from_utf8_lossy(vstd::slice::slice_subrange(d, 0, d.len() - 1)))
}

/// Read one entry record from the stream.
pub fn read_entry(data: &[u8], pos: &mut usize) -> (r: Result<KdbEntry, Error>)
    requires
        *old(pos) <= data@.len(),
    ensures
        *final(pos) <= data@.len(),
        match r {
            Ok(en) => ({
                &&& spec_read_entry(data@, *old(pos) as int) == Ok::<(KdbEntryView, int), Error>(
                    (en@, *final(pos) as int),
                )
                &&& en.wf()
            }),
            Err(e) => spec_read_entry(data@, *old(pos) as int) == Err::<(KdbEntryView, int), Error>(
                e,
            ),
        },
{
    let mut entry_id: Vec<u8> = vec![0u8; 16];
    let mut group_id: u32 = 0;
    let mut title = String::new();
    let mut url = String::new();
    let mut username = String::new();
    let mut password = String::new();
    let mut notes = String::new();
    let mut created = String::new();
    let mut modified = String::new();
    let mut accessed = String::new();
    let mut expires = String::new();
    proof {
        assert(entry_id@ =~= Seq::new(16, |i: int| 0u8));
    }
    loop
        invariant
            *pos <= data@.len(),
            *old(pos) <= data@.len(),
            entry_id@.len() == 16,
            spec_read_entry_rec(
                data@,
                *pos as int,
                KdbEntryView {
                    entry_id: entry_id@,
                    group_id: group_id,
                    title: title@,
                    url: url@,
                    username: username@,
                    password: password@,
                    notes: notes@,
                    created: created@,
                    modified: modified@,
                    accessed: accessed@,
                    expires: expires@,
                },
            ) == spec_read_entry(data@, *old(pos) as int),
        decreases data@.len() - *pos,
    {
        let ghost acc0 = KdbEntryView {
            entry_id: entry_id@,
            group_id: group_id,
            title: title@,
            url: url@,
            username: username@,
            password: password@,
            notes: notes@,
            created: created@,
            modified: modified@,
            accessed: accessed@,
            expires: expires@,
        };
        let f = match read_field(data, pos) {
            Ok(f) => f,
            Err(e) => {
                return Err(e);
            },
        };
        let (field_type, field_data) = f;
        if field_type == 0xFFFF {
            let en = KdbEntry {
                entry_id,
                group_id,
                title,
                url,
                username,
                password,
                notes,
                created,
                modified,
                accessed,
                expires,
            };
            proof {
                assert(en@ =~= acc0);
            }
            return Ok(en);
        }
        match field_type {
            0x0000 => {},
            0x0001 => {
                if field_data.len() != 16 {
                    return Err(Error::InvalidFieldSize {
                        field_type,
                        field_size: field_data.len() as u32,
                    });
                }
                entry_id = field_data;
            },
            0x0002 => {
                group_id = match slice_to_u32(field_type, field_data.as_slice()) {
                    Ok(v) => v,
                    Err(e) => {
                        return Err(e);
                    },
                };
            },
            0x0003 => {},
            0x0004 => {
                title = match entry_string_field(field_type, field_data.as_slice()) {
                    Ok(s) => s,
                    Err(e) => {
                        return Err(e);
                    },
                };
            },
            0x0005 => {
                url = match entry_string_field(field_type, field_data.as_slice()) {
                    Ok(s) => s,
                    Err(e) => {
                        return Err(e);
                    },
                };
            },
            0x0006 => {
                username = match entry_string_field(field_type, field_data.as_slice()) {
                    Ok(s) => s,
                    Err(e) => {
                        return Err(e);
                    },
                };
            },
            0x0007 => {
                password = match entry_string_field(field_type, field_data.as_slice()) {
                    Ok(s) => s,
                    Err(e) => {
                        return Err(e);
                    },
                };
            },
            0x0008 => {
                notes = match entry_string_field(field_type, field_data.as_slice()) {
                    Ok(s) => s,
                    Err(e) => {
                        return Err(e);
                    },
                };
            },
            0x0009 => {
                created = match date_field(field_data.as_slice()) {
                    Ok(s) => s,
                    Err(e) => {
                        return Err(e);
                    },
                };
            },
            0x000a => {
                modified = match date_field(field_data.as_slice()) {
                    Ok(s) => s,
                    Err(e) => {
                        return Err(e);
                    },
                };
            },
            0x000b => {
                accessed = match date_field(field_data.as_slice()) {
                    Ok(s) => s,
                    Err(e) => {
                        return Err(e);
                    },
                };
            },
            0x000c => {
                expires = match date_field(field_data.as_slice()) {
                    Ok(s) => s,
                    Err(e) => {
                        return Err(e);
                    },
                };
            },
            0x000d => {},
            0x000e => {},
            _ => {
                return Err(Error::UnknownFieldType {
                    field_type,
                    field_size: field_data.len() as u32,
                });
            },
        }
        proof {
            let acc1 = KdbEntryView {
                entry_id: entry_id@,
                group_id: group_id,
                title: title@,
                url: url@,
                username: username@,
                password: password@,
                notes: notes@,
                created: created@,
                modified: modified@,
                accessed: accessed@,
                expires: expires@,
            };
            let applied = spec_apply_entry_field(acc0, field_type, field_data@);
            match applied {
                Ok(v) => {
                    assert(v =~= acc1);
                },
                Err(e) => {
                    assert(false);
                },
            }
        }
    }
}

} // verus!
