//! The import table of a loaded 32-bit image: which DLLs it needs and which
//! functions (by name or ordinal) it takes from each.

use super::header::{from_utf8_lossy, utf8_lossy, DataDirectory};
use crate::bytes::{le32, read_le32};
use crate::text::{decimal_digits, decimal_string};
use vstd::prelude::*;
use vstd::slice::{slice_subrange, slice_to_vec};

verus! {

/// Byte length of an import descriptor.
pub const IMPORT_DESCRIPTOR_LEN: usize = 20;

/// The thunk bit that marks an import by ordinal.
pub const IMPORT_BY_ORDINAL: u32 = 0x8000_0000;

/// `o` with `p` in front of its value, when it has one.
pub open spec fn prepend<T>(p: Seq<T>, o: Option<Seq<T>>) -> Option<Seq<T>> {
    match o {
        Some(r) => Some(p + r),
        None => None,
    }
}

/// The NUL-terminated byte string at `off` in `mem`, without its NUL; `None`
/// when no NUL follows inside `mem`.
pub open spec fn cstring_at(mem: Seq<u8>, off: int) -> Option<Seq<u8>>
    decreases mem.len() - off,
{
    if off < 0 || off >= mem.len() {
        None
    } else if mem[off] == 0 {
        Some(Seq::empty())
    } else {
        prepend(seq![mem[off]], cstring_at(mem, off + 1))
    }
}

/// The zero-terminated list of 32-bit thunks at `off`, without the zero;
/// `None` when it runs past the end of `mem`.
pub open spec fn thunks_at(mem: Seq<u8>, off: int) -> Option<Seq<u32>>
    decreases mem.len() - off,
{
    if off < 0 || off + 4 > mem.len() {
        None
    } else if le32(mem, off) == 0 {
        Some(Seq::empty())
    } else {
        prepend(seq![le32(mem, off)], thunks_at(mem, off + 4))
    }
}

/// How a function is imported.
pub enum ImportRef {
    /// By the name stored in the image (its bytes).
    Named(Seq<u8>),
    /// By ordinal.
    Ordinal(u16),
}

/// What the thunk `thunk` imports: an ordinal when its top bit is set, else
/// the name that follows the 2-byte hint at the RVA it holds.
pub open spec fn import_ref(mem: Seq<u8>, thunk: u32) -> Option<ImportRef> {
    if thunk >= IMPORT_BY_ORDINAL {
        Some(ImportRef::Ordinal((thunk % 0x10000) as u16))
    } else {
        match cstring_at(mem, thunk + 2) {
            Some(name) => Some(ImportRef::Named(name)),
            None => None,
        }
    }
}

/// What the thunks `t` import, when every one of them can be read.
pub open spec fn import_refs(mem: Seq<u8>, t: Seq<u32>) -> Option<Seq<ImportRef>> {
    if forall|i: int| 0 <= i < t.len() ==> (#[trigger] import_ref(mem, t[i])).is_some() {
        Some(Seq::new(t.len(), |i: int| import_ref(mem, t[i]).unwrap()))
    } else {
        None
    }
}

/// The DLL that the import descriptor at `off` names, and what it imports
/// from it: the thunks come from the lookup table, or from the address table
/// when there is no lookup table.
pub open spec fn dll_at(mem: Seq<u8>, off: int) -> Option<(Seq<u8>, Seq<ImportRef>)> {
    let lookup = le32(mem, off);
    let name = le32(mem, off + 12);
    let first = le32(mem, off + 16);
    let table = if lookup != 0 {
        lookup
    } else {
        first
    };
    match (cstring_at(mem, name as int), thunks_at(mem, table as int)) {
        (Some(n), Some(t)) => match import_refs(mem, t) {
            Some(r) => Some((n, r)),
            None => None,
        },
        _ => None,
    }
}

/// The import descriptor at `off` is the all-zero one that ends the table.
pub open spec fn is_null_descriptor(mem: Seq<u8>, off: int) -> bool {
    &&& le32(mem, off) == 0
    &&& le32(mem, off + 4) == 0
    &&& le32(mem, off + 8) == 0
    &&& le32(mem, off + 12) == 0
    &&& le32(mem, off + 16) == 0
}

/// The DLLs of the import descriptors from `off` up to the all-zero one;
/// `None` when the table or anything it points to lies outside `mem`.
pub open spec fn import_table(mem: Seq<u8>, off: int) -> Option<Seq<(Seq<u8>, Seq<ImportRef>)>>
    decreases mem.len() - off,
{
    if off < 0 || off + 20 > mem.len() {
        None
    } else if is_null_descriptor(mem, off) {
        Some(Seq::empty())
    } else {
        match dll_at(mem, off) {
            Some(d) => prepend(seq![d], import_table(mem, off + 20)),
            None => None,
        }
    }
}

/// The imports of an image whose memory is `mem` and whose import directory
/// is `dir`; an empty list when the directory is empty.
pub open spec fn import_directory_imports(mem: Seq<u8>, dir: DataDirectory) -> Option<
    Seq<(Seq<u8>, Seq<ImportRef>)>,
> {
    if dir.virtual_address == 0 || dir.size == 0 {
        Some(Seq::empty())
    } else {
        import_table(mem, dir.virtual_address as int)
    }
}

/// The name RVA that the import descriptor at `d` holds (its bytes 12 to 15,
/// little-endian).
pub open spec fn descriptor_name_rva(mem: Seq<u8>, d: int) -> int {
    mem[d + 12] as int + 256 * mem[d + 13] as int + 65536 * mem[d + 14] as int + 16777216 * mem[d
        + 15] as int
}

/// The 20 bytes of the descriptor at `d` are all zero.
pub open spec fn descriptor_all_zero(mem: Seq<u8>, d: int) -> bool {
    forall|p: int| d <= p < d + 20 ==> mem[p] == 0
}

/// The descriptor at `d` is not the all-zero one, and `dll` bears the name
/// that the RVA at its byte 12 points to.
pub open spec fn dll_from_descriptor(mem: Seq<u8>, d: int, dll: ImportedDll) -> bool {
    &&& !descriptor_all_zero(mem, d)
    &&& cstring_at(mem, descriptor_name_rva(mem, d)).is_some()
    &&& dll.name@ == utf8_lossy(cstring_at(mem, descriptor_name_rva(mem, d)).unwrap())
}

/// The descriptor at `d` is not the all-zero one, and the RVA at its byte 12
/// points to the NUL-terminated `name`.
spec fn descriptor_names(mem: Seq<u8>, d: int, name: Seq<u8>) -> bool {
    &&& !descriptor_all_zero(mem, d)
    &&& cstring_at(mem, descriptor_name_rva(mem, d)) == Some(name)
}

/// The import table at `off` has one entry per 20-byte descriptor before the
/// first all-zero descriptor, and entry `k` is the DLL whose name the RVA in
/// descriptor `k` (at `off + 20 * k`, name RVA at byte 12) points to.
proof fn lemma_import_table_shape(mem: Seq<u8>, off: int, ms: Seq<(Seq<u8>, Seq<ImportRef>)>)
    requires
        import_table(mem, off) == Some(ms),
    ensures
        0 <= off,
        off + 20 * (ms.len() + 1) <= mem.len(),
        descriptor_all_zero(mem, off + 20 * ms.len()),
        forall|k: int|
            #![trigger ms[k]]
            0 <= k < ms.len() ==> descriptor_names(mem, off + 20 * k, ms[k].0),
    decreases mem.len() - off,
{
    if is_null_descriptor(mem, off) {
        assert(ms.len() == 0);
    } else {
        let d = dll_at(mem, off).unwrap();
        let rest = import_table(mem, off + 20).unwrap();
        assert(ms == seq![d] + rest);
        lemma_import_table_shape(mem, off + 20, rest);
        assert forall|k: int| #![trigger ms[k]] 0 <= k < ms.len() implies descriptor_names(
            mem,
            off + 20 * k,
            ms[k].0,
        ) by {
            if k == 0 {
                if descriptor_all_zero(mem, off) {
                    assert(mem[off] == 0 && mem[off + 1] == 0 && mem[off + 2] == 0 && mem[off + 3] == 0);
                    assert(mem[off + 4] == 0 && mem[off + 5] == 0 && mem[off + 6] == 0 && mem[off + 7] == 0);
                    assert(mem[off + 8] == 0 && mem[off + 9] == 0 && mem[off + 10] == 0 && mem[off + 11] == 0);
                    assert(mem[off + 12] == 0 && mem[off + 13] == 0 && mem[off + 14] == 0 && mem[off + 15] == 0);
                    assert(mem[off + 16] == 0 && mem[off + 17] == 0 && mem[off + 18] == 0 && mem[off + 19] == 0);
                    assert(is_null_descriptor(mem, off));
                }
            } else {
                assert(ms[k] == rest[k - 1]);
                assert(off + 20 * k == (off + 20) + 20 * (k - 1));
            }
        }
        assert(off + 20 * ms.len() == (off + 20) + 20 * rest.len());
    }
}

/// The DLLs that the import table lists are exactly those of the 20-byte
/// descriptors at the directory's RVA, in order, up to the first all-zero
/// descriptor: there are as many as there are non-null descriptors before
/// it, and DLL `k` bears the name that descriptor `k` points to.
pub proof fn lemma_imports_follow_descriptors(
    mem: Seq<u8>,
    dir: DataDirectory,
    ms: Seq<(Seq<u8>, Seq<ImportRef>)>,
    dlls: Seq<ImportedDll>,
)
    requires
        dir.virtual_address != 0,
        dir.size != 0,
        import_directory_imports(mem, dir) == Some(ms),
        imports_match(dlls, ms),
    ensures
        dir.virtual_address + 20 * (dlls.len() + 1) <= mem.len(),
        descriptor_all_zero(mem, dir.virtual_address + 20 * dlls.len()),
        forall|k: int|
            0 <= k < dlls.len() ==> #[trigger] dll_from_descriptor(
                mem,
                dir.virtual_address + 20 * k,
                dlls[k],
            ),
{
    let off = dir.virtual_address as int;
    lemma_import_table_shape(mem, off, ms);
    assert forall|k: int| 0 <= k < dlls.len() implies #[trigger] dll_from_descriptor(mem, dir.virtual_address + 20 * k, dlls[k]) by {
        assert(dll_matches(dlls[k], ms[k]));
        assert(dir.virtual_address + 20 * k == off + 20 * k);
    }
}

/// Reads the NUL-terminated byte string at `off`.
fn read_cstring(mem: &[u8], off: usize) -> (r: Option<Vec<u8>>)
    ensures
        match r {
            Some(v) => cstring_at(mem@, off as int) == Some(v@),
            None => cstring_at(mem@, off as int).is_none(),
        },
{
    let len = mem.len();
    if off >= len {
        return None;
    }
    let mut j = off;
    proof {
        let c = cstring_at(mem@, off as int);
        if let Some(x) = c {
            assert(mem@.subrange(off as int, off as int) + x =~= x);
        }
    }
    while j < len && mem[j] != 0
        invariant
            off <= j <= len,
            len == mem@.len(),
            cstring_at(mem@, off as int) == prepend(
                mem@.subrange(off as int, j as int),
                cstring_at(mem@, j as int),
            ),
        decreases len - j,
    {
        proof {
            let rest = cstring_at(mem@, j + 1);
            if let Some(x) = rest {
                assert(mem@.subrange(off as int, j as int) + (seq![mem@[j as int]] + x)
                    =~= mem@.subrange(off as int, j + 1) + x);
            }
        }
        j = j + 1;
    }
    if j == len {
        return None;
    }
    let v = slice_to_vec(slice_subrange(mem, off, j));
    assert(mem@.subrange(off as int, j as int) + Seq::<u8>::empty() =~= v@);
    Some(v)
}

/// Reads the zero-terminated thunk list at `off`.
fn read_thunks(mem: &[u8], off: usize) -> (r: Option<Vec<u32>>)
    ensures
        match r {
            Some(v) => thunks_at(mem@, off as int) == Some(v@),
            None => thunks_at(mem@, off as int).is_none(),
        },
{
    let len = mem.len();
    let mut out: Vec<u32> = Vec::new();
    let mut pos = off;
    proof {
        if let Some(x) = thunks_at(mem@, off as int) {
            assert(Seq::<u32>::empty() + x =~= x);
        }
    }
    loop
        invariant
            off <= pos,
            len == mem@.len(),
            thunks_at(mem@, off as int) == prepend(out@, thunks_at(mem@, pos as int)),
        decreases len - pos,
    {
        if pos > len || len - pos < 4 {
            return None;
        }
        let t = read_le32(mem, pos);
        if t == 0 {
            assert(out@ + Seq::<u32>::empty() =~= out@);
            return Some(out);
        }
        proof {
            if let Some(x) = thunks_at(mem@, pos + 4) {
                assert(out@ + (seq![t] + x) =~= out@.push(t) + x);
            }
        }
        out.push(t);
        pos = pos + 4;
    }
}


/// A function that an image imports.
#[derive(Debug, Clone, PartialEq, Eq)]
pub enum ImportedFunction {
    /// By name.
    ByName(String),
    /// By ordinal.
    ByOrdinal(u16),
}

/// A DLL that an image imports from, with the functions it takes.
#[derive(Debug, Clone, PartialEq, Eq)]
pub struct ImportedDll {
    pub name: String,
    pub functions: Vec<ImportedFunction>,
}

/// Why the import table could not be read.
#[derive(Debug, Clone, Copy, PartialEq, Eq, Structural)]
pub enum ImportError {
    /// The table, a name or a thunk list runs outside the image.
    OutsideImage,
}

/// `f` is the function that `r` describes; names are decoded leniently.
pub open spec fn function_matches(f: ImportedFunction, r: ImportRef) -> bool {
    match (f, r) {
        (ImportedFunction::ByName(s), ImportRef::Named(b)) => s@ == utf8_lossy(b),
        (ImportedFunction::ByOrdinal(o), ImportRef::Ordinal(p)) => o == p,
        _ => false,
    }
}

/// `d` is the DLL import that `m` describes.
pub open spec fn dll_matches(d: ImportedDll, m: (Seq<u8>, Seq<ImportRef>)) -> bool {
    &&& d.name@ == utf8_lossy(m.0)
    &&& d.functions@.len() == m.1.len()
    &&& forall|i: int|
        0 <= i < m.1.len() ==> function_matches(#[trigger] d.functions@[i], m.1[i])
}

/// `v` lists the DLL imports that `ms` describes, in order.
pub open spec fn imports_match(v: Seq<ImportedDll>, ms: Seq<(Seq<u8>, Seq<ImportRef>)>) -> bool {
    &&& v.len() == ms.len()
    &&& forall|i: int| 0 <= i < ms.len() ==> dll_matches(#[trigger] v[i], ms[i])
}

/// Reads what the thunk `thunk` imports.
fn read_import_ref(mem: &[u8], thunk: u32) -> (r: Option<ImportedFunction>)
    ensures
        match import_ref(mem@, thunk) {
            Some(m) => r.is_some() && function_matches(r.unwrap(), m),
            None => r.is_none(),
        },
{
    if thunk >= IMPORT_BY_ORDINAL {
        return Some(ImportedFunction::ByOrdinal((thunk % 0x10000) as u16));
    }
    match read_cstring(mem, thunk as usize + 2) {
        Some(bytes) => Some(ImportedFunction::ByName(from_utf8_lossy(bytes.as_slice()))),
        None => None,
    }
}

/// Reads the DLL import of the descriptor at `off`.
fn read_dll(mem: &[u8], off: usize) -> (r: Option<ImportedDll>)
    requires
        off + 20 <= mem@.len(),
    ensures
        match dll_at(mem@, off as int) {
            Some(m) => r.is_some() && dll_matches(r.unwrap(), m),
            None => r.is_none(),
        },
{
    let len = mem.len();
    let lookup = read_le32(mem, off);
    let name_rva = read_le32(mem, off + 12);
    let first = read_le32(mem, off + 16);
    let table = if lookup != 0 {
        lookup
    } else {
        first
    };
    let name = match read_cstring(mem, name_rva as usize) {
        Some(bytes) => bytes,
        None => return None,
    };
    let thunks = match read_thunks(mem, table as usize) {
        Some(t) => t,
        None => return None,
    };
    let ghost t = thunks@;
    assert(dll_at(mem@, off as int) == match import_refs(mem@, t) {
        Some(r) => Some((name@, r)),
        None => None,
    });
    let mut functions: Vec<ImportedFunction> = Vec::new();
    let mut i: usize = 0;
    while i < thunks.len()
        invariant
            t == thunks@,
            dll_at(mem@, off as int) == match import_refs(mem@, t) {
                Some(r) => Some((name@, r)),
                None => None,
            },
            i <= t.len(),
            functions@.len() == i,
            forall|k: int| 0 <= k < i ==> (#[trigger] import_ref(mem@, t[k])).is_some(),
            forall|k: int|
                0 <= k < i ==> function_matches(
                    #[trigger] functions@[k],
                    import_ref(mem@, t[k]).unwrap(),
                ),
        decreases t.len() - i,
    {
        match read_import_ref(mem, thunks[i]) {
            Some(f) => functions.push(f),
            None => {
                assert(import_ref(mem@, t[i as int]).is_none());
                assert(import_refs(mem@, t).is_none());
                return None;
            },
        }
        i = i + 1;
    }
    let dll = ImportedDll { name: from_utf8_lossy(name.as_slice()), functions };
    assert(import_refs(mem@, t) == Some(
        Seq::new(t.len(), |k: int| import_ref(mem@, t[k]).unwrap()),
    ));
    Some(dll)
}

/// Reads the import table whose descriptors start at `off`.
fn read_import_table(mem: &[u8], off: usize) -> (r: Result<Vec<ImportedDll>, ImportError>)
    ensures
        match import_table(mem@, off as int) {
            Some(ms) => r.is_ok() && imports_match(r.unwrap()@, ms),
            None => r.is_err(),
        },
{
    let len = mem.len();
    let mut out: Vec<ImportedDll> = Vec::new();
    let ghost mut done: Seq<(Seq<u8>, Seq<ImportRef>)> = Seq::empty();
    let mut pos = off;
    proof {
        if let Some(x) = import_table(mem@, off as int) {
            assert(done + x =~= x);
        }
    }
    loop
        invariant
            off <= pos,
            len == mem@.len(),
            import_table(mem@, off as int) == prepend(done, import_table(mem@, pos as int)),
            imports_match(out@, done),
        decreases len - pos,
    {
        if pos > len || len - pos < IMPORT_DESCRIPTOR_LEN {
            return Err(ImportError::OutsideImage);
        }
        if read_le32(mem, pos) == 0 && read_le32(mem, pos + 4) == 0 && read_le32(mem, pos + 8) == 0
            && read_le32(mem, pos + 12) == 0 && read_le32(mem, pos + 16) == 0 {
            assert(done + Seq::<(Seq<u8>, Seq<ImportRef>)>::empty() =~= done);
            return Ok(out);
        }
        let dll = match read_dll(mem, pos) {
            Some(d) => d,
            None => return Err(ImportError::OutsideImage),
        };
        let ghost m = dll_at(mem@, pos as int).unwrap();
        proof {
            if let Some(x) = import_table(mem@, pos + 20) {
                assert(done + (seq![m] + x) =~= done.push(m) + x);
            }
            done = done.push(m);
        }
        out.push(dll);
        pos = pos + IMPORT_DESCRIPTOR_LEN;
    }
}

/// Reads the imports of an image whose memory is `mem` and whose import
/// directory is `dir`.
pub fn parse_imports(mem: &[u8], dir: DataDirectory) -> (r: Result<Vec<ImportedDll>, ImportError>)
    ensures
        match import_directory_imports(mem@, dir) {
            Some(ms) => r.is_ok() && imports_match(r.unwrap()@, ms),
            None => r == Err::<Vec<ImportedDll>, ImportError>(ImportError::OutsideImage),
        },
        r.is_ok() && dir.virtual_address != 0 && dir.size != 0 ==> {
            let n = r.unwrap()@.len();
            &&& dir.virtual_address + 20 * (n + 1) <= mem@.len()
            &&& descriptor_all_zero(mem@, dir.virtual_address + 20 * n)
            &&& forall|k: int|
                0 <= k < n ==> #[trigger] dll_from_descriptor(
                    mem@,
                    dir.virtual_address + 20 * k,
                    r.unwrap()@[k],
                )
        },
{
    if dir.virtual_address == 0 || dir.size == 0 {
        return Ok(Vec::new());
    }
    match read_import_table(mem, dir.virtual_address as usize) {
        Ok(v) => {
            proof {
                let ms = import_directory_imports(mem@, dir).unwrap();
                lemma_imports_follow_descriptors(mem@, dir, ms, v@);
            }
            Ok(v)
        },
        Err(_) => Err(ImportError::OutsideImage),
    }
}


/// The listing line text of an imported function.
pub open spec fn import_ref_text(r: ImportRef) -> Seq<char> {
    match r {
        ImportRef::Named(b) => utf8_lossy(b),
        ImportRef::Ordinal(o) => "ordinal "@ + decimal_digits(o as nat),
    }
}

/// The listing lines of the functions `refs`, one per function.
pub open spec fn function_lines(refs: Seq<ImportRef>) -> Seq<char>
    decreases refs.len(),
{
    if refs.len() == 0 {
        Seq::empty()
    } else {
        function_lines(refs.drop_last()) + "    "@ + import_ref_text(refs.last()) + "\n"@
    }
}

/// The listing lines of the DLL imports `ms`: each DLL's name, then its functions.
pub open spec fn dll_lines(ms: Seq<(Seq<u8>, Seq<ImportRef>)>) -> Seq<char>
    decreases ms.len(),
{
    if ms.len() == 0 {
        Seq::empty()
    } else {
        dll_lines(ms.drop_last()) + "  "@ + utf8_lossy(ms.last().0) + "\n"@ + function_lines(
            ms.last().1,
        )
    }
}

/// The import listing shown for an import table that reads as `r`.
pub open spec fn imports_listing(r: Option<Seq<(Seq<u8>, Seq<ImportRef>)>>) -> Seq<char> {
    match r {
        Some(ms) => if ms.len() == 0 {
            "Imports: none\n"@
        } else {
            "Imports:\n"@ + dll_lines(ms)
        },
        None => "Imports: the import table runs outside the image\n"@,
    }
}

/// The listing line text of `f`.
fn function_text(f: &ImportedFunction) -> (s: String)
    ensures
        forall|r: ImportRef| function_matches(*f, r) ==> s@ == import_ref_text(r),
{
    match f {
        ImportedFunction::ByName(n) => n.clone(),
        ImportedFunction::ByOrdinal(o) => {
            let mut s = String::from_str("ordinal ");
            s.append(decimal_string(*o as u64).as_str());
            s
        },
    }
}

/// Renders the import listing of `dlls`, which `ms` describes.
pub(crate) fn render_imports(
    dlls: &Vec<ImportedDll>,
    Ghost(ms): Ghost<Seq<(Seq<u8>, Seq<ImportRef>)>>,
) -> (s: String)
    requires
        imports_match(dlls@, ms),
    ensures
        s@ == imports_listing(Some(ms)),
{
    if dlls.len() == 0 {
        return String::from_str("Imports: none\n");
    }
    let mut s = String::from_str("Imports:\n");
    let ghost head = s@;
    let mut i: usize = 0;
    assert(ms.subrange(0, 0) =~= Seq::<(Seq<u8>, Seq<ImportRef>)>::empty());
    assert(head + Seq::<char>::empty() =~= head);
    while i < dlls.len()
        invariant
            imports_match(dlls@, ms),
            i <= dlls@.len(),
            s@ == head + dll_lines(ms.subrange(0, i as int)),
        decreases dlls@.len() - i,
    {
        let d = &dlls[i];
        let ghost m = ms[i as int];
        assert(dll_matches(*d, m));
        s.append("  ");
        s.append(d.name.as_str());
        s.append("\n");
        let ghost base = s@;
        assert(base + Seq::<char>::empty() =~= base);
        assert(m.1.subrange(0, 0) =~= Seq::<ImportRef>::empty());
        let mut k: usize = 0;
        while k < d.functions.len()
            invariant
                dll_matches(*d, m),
                k <= d.functions@.len(),
                s@ == base + function_lines(m.1.subrange(0, k as int)),
            decreases d.functions@.len() - k,
        {
            assert(function_matches(d.functions@[k as int], m.1[k as int]));
            let line = function_text(&d.functions[k]);
            s.append("    ");
            s.append(line.as_str());
            s.append("\n");
            assert(m.1.subrange(0, k + 1).drop_last() =~= m.1.subrange(0, k as int));
            k = k + 1;
        }
        assert(m.1.subrange(0, k as int) =~= m.1);
        assert(ms.subrange(0, i + 1).drop_last() =~= ms.subrange(0, i as int));
        i = i + 1;
    }
    assert(ms.subrange(0, i as int) =~= ms);
    s
}

} // verus!
