//! Packing records into a caller-owned byte region.
//!
//! A record is stored as its fields one behind the other, each followed by a
//! terminator byte. Nothing is written unless every field can be stored and
//! the region holds them all; the caller learns where each field begins.

use vstd::prelude::*;
use vstd::string::is_ascii_spec_bytes;
use vstd::string::StringSliceAdditionalSpecFns;
use vstd::string::StrSliceExecFns;
use vstd::utf8::encode_utf8;
use crate::error::BufferFillError;
use crate::error::BufferFillResult;
use crate::UserInfo;
use crate::UserRecord;

verus! {

/// Whether a field holds the terminator byte.
pub open spec fn has_nul(field: Seq<u8>) -> bool {
    exists|i: int| 0 <= i < field.len() && field[i] == 0
}

/// Whether one of the fields holds the terminator byte.
pub open spec fn any_nul(fields: Seq<Seq<u8>>) -> bool {
    exists|k: int| 0 <= k < fields.len() && has_nul(#[trigger] fields[k])
}

/// The bytes that a list of fields occupies: each field, then its terminator.
pub open spec fn packed(fields: Seq<Seq<u8>>) -> Seq<u8>
    decreases fields.len(),
{
    if fields.len() == 0 {
        Seq::empty()
    } else {
        packed(fields.drop_last()) + fields.last().push(0u8)
    }
}

/// Where field `k` begins in the packed bytes.
pub open spec fn field_offset(fields: Seq<Seq<u8>>, k: int) -> nat {
    packed(fields.take(k)).len()
}

/// The text that begins at `at` and ends before the next terminator byte.
pub open spec fn c_string_at(bytes: Seq<u8>, at: int) -> Seq<u8>
    decreases bytes.len() - at,
{
    if at < 0 || at >= bytes.len() || bytes[at] == 0 {
        Seq::empty()
    } else {
        seq![bytes[at]] + c_string_at(bytes, at + 1)
    }
}

/// The bytes of each field.
pub open spec fn byte_views(fields: Seq<Vec<u8>>) -> Seq<Seq<u8>> {
    fields.map_values(|f: Vec<u8>| f@)
}

/// The packed bytes grow with every field.
pub proof fn lemma_packed_prefix(fields: Seq<Seq<u8>>, k: int)
    requires
        0 <= k <= fields.len(),
    ensures
        packed(fields.take(k)).len() <= packed(fields).len(),
        packed(fields.take(k)) == packed(fields).take(packed(fields.take(k)).len() as int),
    decreases fields.len() - k,
{
    if k == fields.len() {
        assert(fields.take(k) =~= fields);
        assert(packed(fields) =~= packed(fields).take(packed(fields).len() as int));
    } else {
        lemma_packed_prefix(fields.drop_last(), k);
        assert(fields.drop_last().take(k) =~= fields.take(k));
        let head = packed(fields.take(k));
        assert(head =~= packed(fields).take(head.len() as int));
    }
}

/// One more field adds its length and a terminator.
pub proof fn lemma_packed_step(fields: Seq<Seq<u8>>, k: int)
    requires
        0 <= k < fields.len(),
    ensures
        packed(fields.take(k + 1)) == packed(fields.take(k)) + fields[k].push(0u8),
{
    assert(fields.take(k + 1).drop_last() =~= fields.take(k));
}

/// A stored text is read back as it was written, whatever follows it.
pub proof fn lemma_c_string_at(bytes: Seq<u8>, at: int, field: Seq<u8>)
    requires
        0 <= at,
        at + field.len() < bytes.len(),
        !has_nul(field),
        bytes.subrange(at, at + field.len() + 1) == field.push(0u8),
    ensures
        c_string_at(bytes, at) == field,
    decreases field.len(),
{
    let stored = bytes.subrange(at, at + field.len() + 1);
    if field.len() == 0 {
        assert(stored[0] == 0);
        assert(c_string_at(bytes, at) =~= field);
    } else {
        assert(stored[0] == field[0]);
        let rest = field.skip(1);
        assert forall|i: int| 0 <= i < rest.len() implies rest[i] != 0 by {
            assert(rest[i] == field[i + 1]);
        }
        assert(bytes.subrange(at + 1, at + 1 + rest.len() + 1) =~= rest.push(0u8)) by {
            assert forall|i: int| 0 <= i < rest.len() + 1 implies bytes[at + 1 + i] == rest.push(
                0u8,
            )[i] by {
                assert(stored[i + 1] == field.push(0u8)[i + 1]);
            }
        }
        lemma_c_string_at(bytes, at + 1, rest);
        assert(seq![bytes[at]] + rest =~= field);
    }
}

/// Every field of a packed record is read back at its offset as it was
/// given, provided that no field holds a terminator byte.
pub proof fn lemma_packed_field_reads_back(fields: Seq<Seq<u8>>, k: int, tail: Seq<u8>)
    requires
        0 <= k < fields.len(),
        !any_nul(fields),
    ensures
        c_string_at(packed(fields) + tail, field_offset(fields, k) as int) == fields[k],
{
    let image = packed(fields) + tail;
    let at = field_offset(fields, k) as int;
    lemma_packed_step(fields, k);
    lemma_packed_prefix(fields, k + 1);
    let upto = packed(fields.take(k + 1));
    assert(image.subrange(at, at + fields[k].len() + 1) =~= fields[k].push(0u8)) by {
        assert forall|i: int| 0 <= i < fields[k].len() + 1 implies image[at + i] == fields[k].push(
            0u8,
        )[i] by {
            assert(upto[at + i] == packed(fields).take(upto.len() as int)[at + i]);
        }
    }
    lemma_c_string_at(image, at, fields[k]);
}

/// Reads the text stored at `at`.
pub fn read_c_string(bytes: &[u8], at: usize) -> (r: Vec<u8>)
    ensures
        r@ == c_string_at(bytes@, at as int),
{
    let mut r: Vec<u8> = Vec::new();
    let mut i: usize = at;
    while i < bytes.len() && bytes[i] != 0
        invariant
            at <= i,
            i <= bytes.len() || i == at,
            r@ + c_string_at(bytes@, i as int) == c_string_at(bytes@, at as int),
        decreases bytes.len() - i,
    {
        assert(r@.push(bytes@[i as int]) + c_string_at(bytes@, i + 1) =~= r@ + c_string_at(
            bytes@,
            i as int,
        ));
        r.push(bytes[i]);
        i = i + 1;
    }
    assert(c_string_at(bytes@, i as int) =~= Seq::<u8>::empty());
    assert(r@ + Seq::<u8>::empty() =~= r@);
    r
}

/// Looks for a terminator byte in a field.
fn holds_nul(field: &Vec<u8>) -> (r: bool)
    ensures
        r == has_nul(field@),
{
    let mut i: usize = 0;
    while i < field.len()
        invariant
            i <= field.len(),
            forall|j: int| 0 <= j < i ==> field@[j] != 0,
        decreases field.len() - i,
    {
        if field[i] == 0 {
            return true;
        }
        i = i + 1;
    }
    false
}

/// Looks for a terminator byte in the fields.
fn any_holds_nul(fields: &Vec<Vec<u8>>) -> (r: bool)
    ensures
        r == any_nul(byte_views(fields@)),
{
    let mut k: usize = 0;
    while k < fields.len()
        invariant
            k <= fields.len(),
            forall|j: int| 0 <= j < k ==> !has_nul(#[trigger] byte_views(fields@)[j]),
        decreases fields.len() - k,
    {
        if holds_nul(&fields[k]) {
            assert(has_nul(byte_views(fields@)[k as int]));
            return true;
        }
        k = k + 1;
    }
    false
}

/// The number of bytes that the fields need, where a machine word can hold it.
fn required_len(fields: &Vec<Vec<u8>>) -> (r: Option<usize>)
    ensures
        match r {
            Some(n) => n == packed(byte_views(fields@)).len(),
            None => packed(byte_views(fields@)).len() > usize::MAX,
        },
{
    let ghost all = byte_views(fields@);
    let mut total: usize = 0;
    let mut k: usize = 0;
    while k < fields.len()
        invariant
            k <= fields.len(),
            all == byte_views(fields@),
            total == packed(all.take(k as int)).len(),
        decreases fields.len() - k,
    {
        proof {
            lemma_packed_step(all, k as int);
            lemma_packed_prefix(all, k + 1);
        }
        let len = fields[k].len();
        if len == usize::MAX || total > usize::MAX - (len + 1) {
            return None;
        }
        total = total + (len + 1);
        k = k + 1;
    }
    assert(all.take(k as int) =~= all);
    Some(total)
}

/// Writes `field` and its terminator at `at`.
fn write_c_string(buffer: &mut [u8], at: usize, field: &Vec<u8>)
    requires
        at + field.len() + 1 <= old(buffer)@.len(),
    ensures
        final(buffer)@ == old(buffer)@.take(at as int) + field@.push(0u8) + old(buffer)@.skip(
            at + field.len() + 1,
        ),
{
    let ghost before = buffer@;
    let capacity = buffer.len();
    let mut j: usize = 0;
    while j < field.len()
        invariant
            j <= field.len(),
            before.len() == capacity,
            at + field.len() + 1 <= before.len(),
            buffer@ == before.take(at as int) + field@.take(j as int) + before.skip(at + j),
        decreases field.len() - j,
    {
        buffer[at + j] = field[j];
        j = j + 1;
    }
    buffer[at + field.len()] = 0;
}

/// Stores the fields at the start of `buffer` and tells where each begins.
///
/// Nothing is written unless every field is free of terminator bytes and the
/// buffer holds them all.
pub fn pack_fields(buffer: &mut [u8], fields: &Vec<Vec<u8>>) -> (r: BufferFillResult<Vec<usize>>)
    ensures
        any_nul(byte_views(fields@)) ==> r == Err::<Vec<usize>, _>(
            BufferFillError::ZeroByteInString,
        ),
        !any_nul(byte_views(fields@)) && packed(byte_views(fields@)).len() > old(buffer)@.len()
            ==> r == Err::<Vec<usize>, _>(BufferFillError::InsufficientBuffer),
        !any_nul(byte_views(fields@)) && packed(byte_views(fields@)).len() <= old(buffer)@.len()
            ==> r is Ok,
        r is Err ==> final(buffer)@ == old(buffer)@,
        r matches Ok(offsets) ==> {
            &&& final(buffer)@ == packed(byte_views(fields@)) + old(buffer)@.skip(
                packed(byte_views(fields@)).len() as int,
            )
            &&& offsets@.len() == fields@.len()
            &&& forall|k: int|
                0 <= k < fields@.len() ==> offsets@[k] == field_offset(byte_views(fields@), k)
        },
{
    let ghost all = byte_views(fields@);
    let ghost before = buffer@;
    let capacity = buffer.len();
    if any_holds_nul(fields) {
        return Err(BufferFillError::ZeroByteInString);
    }
    let required = match required_len(fields) {
        Some(n) => n,
        None => {
            return Err(BufferFillError::InsufficientBuffer);
        },
    };
    if capacity < required {
        return Err(BufferFillError::InsufficientBuffer);
    }
    let mut offsets: Vec<usize> = Vec::new();
    let mut at: usize = 0;
    let mut k: usize = 0;
    while k < fields.len()
        invariant
            k <= fields.len(),
            all == byte_views(fields@),
            required == packed(all).len(),
            required <= before.len(),
            at == packed(all.take(k as int)).len(),
            buffer@ == packed(all.take(k as int)) + before.skip(at as int),
            offsets@.len() == k,
            forall|j: int| 0 <= j < k ==> offsets@[j] == field_offset(all, j),
        decreases fields.len() - k,
    {
        proof {
            lemma_packed_step(all, k as int);
            lemma_packed_prefix(all, k + 1);
        }
        write_c_string(buffer, at, &fields[k]);
        offsets.push(at);
        at = at + fields[k].len() + 1;
        k = k + 1;
    }
    assert(all.take(k as int) =~= all);
    Ok(offsets)
}

/// Where the fields of a packed user record begin in the buffer.
#[derive(Debug, Clone, Copy, PartialEq, Eq, Structural)]
pub struct PasswdEntry {
    pub name: usize,
    pub passwd: usize,
    pub gecos: usize,
    pub shell: usize,
    pub dir: usize,
}

/// The fields of a user record in the order in which they are stored: login
/// name, password placeholder, display name, shell and home directory.
///
/// The placeholder `.` says that authentication happens elsewhere; it is not
/// the `*` of a locked account.
pub open spec fn passwd_fields(username: Seq<char>, fullname: Seq<char>) -> Seq<Seq<u8>> {
    seq![
        encode_utf8(username),
        ".".spec_bytes(),
        encode_utf8(fullname),
        "/bin/bash".spec_bytes(),
        "/home/".spec_bytes() + encode_utf8(username),
    ]
}

/// What packing a user record into a buffer of `capacity` bytes returns.
pub open spec fn passwd_fill(capacity: nat, username: Seq<char>, fullname: Seq<char>)
    -> BufferFillResult<PasswdEntry> {
    let fields = passwd_fields(username, fullname);
    if any_nul(fields) {
        Err(BufferFillError::ZeroByteInString)
    } else if packed(fields).len() > capacity {
        Err(BufferFillError::InsufficientBuffer)
    } else {
        Ok(
            PasswdEntry {
                name: field_offset(fields, 0) as usize,
                passwd: field_offset(fields, 1) as usize,
                gecos: field_offset(fields, 2) as usize,
                shell: field_offset(fields, 3) as usize,
                dir: field_offset(fields, 4) as usize,
            },
        )
    }
}

/// The fixed texts of a user record, as bytes.
proof fn lemma_fixed_texts()
    ensures
        ".".spec_bytes() == seq![46u8],
        "/bin/bash".spec_bytes() == seq![47u8, 98u8, 105u8, 110u8, 47u8, 98u8, 97u8, 115u8, 104u8],
        "/home/".spec_bytes() == seq![47u8, 104u8, 111u8, 109u8, 101u8, 47u8],
{
    reveal_strlit(".");
    reveal_strlit("/bin/bash");
    reveal_strlit("/home/");
    is_ascii_spec_bytes(".");
    is_ascii_spec_bytes("/bin/bash");
    is_ascii_spec_bytes("/home/");
    assert(".".spec_bytes() =~= seq![46u8]);
    assert("/bin/bash".spec_bytes() =~= seq![
        47u8,
        98u8,
        105u8,
        110u8,
        47u8,
        98u8,
        97u8,
        115u8,
        104u8,
    ]);
    assert("/home/".spec_bytes() =~= seq![47u8, 104u8, 111u8, 109u8, 101u8, 47u8]);
}

/// Where the fields of a user record lie: a record needs twice the length
/// of the login name, the length of the display name, and 21 bytes for the
/// fixed texts and the terminators.
pub proof fn lemma_passwd_layout(username: Seq<char>, fullname: Seq<char>)
    ensures
        ({
            let fields = passwd_fields(username, fullname);
            let n = encode_utf8(username).len();
            let g = encode_utf8(fullname).len();
            &&& field_offset(fields, 0) == 0
            &&& field_offset(fields, 1) == n + 1
            &&& field_offset(fields, 2) == n + 3
            &&& field_offset(fields, 3) == n + g + 4
            &&& field_offset(fields, 4) == n + g + 14
            &&& packed(fields).len() == 2 * n + g + 21
        }),
{
    let fields = passwd_fields(username, fullname);
    lemma_fixed_texts();
    lemma_packed_step(fields, 0);
    lemma_packed_step(fields, 1);
    lemma_packed_step(fields, 2);
    lemma_packed_step(fields, 3);
    lemma_packed_step(fields, 4);
    assert(fields.take(0) =~= Seq::<Seq<u8>>::empty());
    assert(fields.take(5) =~= fields);
}

/// A user record cannot be stored exactly when its login name or its
/// display name holds a terminator byte.
pub proof fn lemma_passwd_fields_nul(username: Seq<char>, fullname: Seq<char>)
    ensures
        any_nul(passwd_fields(username, fullname)) <==> has_nul(encode_utf8(username)) || has_nul(
            encode_utf8(fullname),
        ),
{
    let fields = passwd_fields(username, fullname);
    let name = encode_utf8(username);
    lemma_fixed_texts();
    if has_nul(name) {
        assert(has_nul(fields[0]));
    }
    if has_nul(encode_utf8(fullname)) {
        assert(has_nul(fields[2]));
    }
    if any_nul(fields) {
        let k = choose|k: int| 0 <= k < fields.len() && has_nul(#[trigger] fields[k]);
        if k == 4 {
            let i = choose|i: int| 0 <= i < fields[4].len() && fields[4][i] == 0;
            assert(i >= 6);
            assert(name[i - 6] == 0);
        }
    }
}

/// A stored user record is read back as it was given: the login name at
/// its offset, `.` as the password, the display name, `/bin/bash` as the
/// shell, and `/home/` with the login name as the home directory, whatever
/// follows the record in the buffer.
pub proof fn lemma_passwd_reads_back(username: Seq<char>, fullname: Seq<char>, tail: Seq<u8>)
    requires
        !has_nul(encode_utf8(username)),
        !has_nul(encode_utf8(fullname)),
    ensures
        ({
            let fields = passwd_fields(username, fullname);
            let image = packed(fields) + tail;
            &&& c_string_at(image, field_offset(fields, 0) as int) == encode_utf8(username)
            &&& c_string_at(image, field_offset(fields, 1) as int) == ".".spec_bytes()
            &&& c_string_at(image, field_offset(fields, 2) as int) == encode_utf8(fullname)
            &&& c_string_at(image, field_offset(fields, 3) as int) == "/bin/bash".spec_bytes()
            &&& c_string_at(image, field_offset(fields, 4) as int) == "/home/".spec_bytes()
                + encode_utf8(username)
        }),
{
    let fields = passwd_fields(username, fullname);
    lemma_passwd_fields_nul(username, fullname);
    lemma_packed_field_reads_back(fields, 0, tail);
    lemma_packed_field_reads_back(fields, 1, tail);
    lemma_packed_field_reads_back(fields, 2, tail);
    lemma_packed_field_reads_back(fields, 3, tail);
    lemma_packed_field_reads_back(fields, 4, tail);
}

/// Packs a user record into `buffer`.
///
/// A buffer that cannot hold the record, an empty one too, is too small. On
/// every failure the buffer is left as it was.
pub fn fill_passwd_buf(buffer: &mut [u8], username: &str, fullname: &str) -> (r: BufferFillResult<
    PasswdEntry,
>)
    ensures
        r == passwd_fill(old(buffer)@.len(), username@, fullname@),
        r is Err ==> final(buffer)@ == old(buffer)@,
        r is Ok ==> final(buffer)@ == packed(passwd_fields(username@, fullname@)) + old(
            buffer,
        )@.skip(packed(passwd_fields(username@, fullname@)).len() as int),
{
    let mut dir = "/home/".as_bytes_vec();
    let mut name = username.as_bytes_vec();
    dir.append(&mut name);
    let mut fields: Vec<Vec<u8>> = Vec::new();
    fields.push(username.as_bytes_vec());
    fields.push(".".as_bytes_vec());
    fields.push(fullname.as_bytes_vec());
    fields.push("/bin/bash".as_bytes_vec());
    fields.push(dir);
    assert(byte_views(fields@) =~= passwd_fields(username@, fullname@));
    match pack_fields(buffer, &fields) {
        Ok(offsets) => Ok(
            PasswdEntry {
                name: offsets[0],
                passwd: offsets[1],
                gecos: offsets[2],
                shell: offsets[3],
                dir: offsets[4],
            },
        ),
        Err(e) => Err(e),
    }
}

/// A packed group record: its numeric id and where its fields begin in the
/// buffer. The member names begin at `members`, in the order given.
#[derive(Debug, Clone, PartialEq, Eq)]
pub struct GroupEntry {
    pub gid: u32,
    pub name: usize,
    pub passwd: usize,
    pub members: Vec<usize>,
}

/// Mathematical model of a [`GroupEntry`].
pub struct GroupLayout {
    pub gid: u32,
    pub name: usize,
    pub passwd: usize,
    pub members: Seq<usize>,
}

impl View for GroupEntry {
    type V = GroupLayout;

    open spec fn view(&self) -> GroupLayout {
        GroupLayout {
            gid: self.gid,
            name: self.name,
            passwd: self.passwd,
            members: self.members@,
        }
    }
}

/// The login names of the members, as bytes.
pub open spec fn member_names(members: Seq<UserRecord>) -> Seq<Seq<u8>> {
    Seq::new(members.len(), |i: int| encode_utf8(members[i].username))
}

/// The fields of a group record in the order in which they are stored: group
/// name, password placeholder, then the login name of each member.
pub open spec fn group_fields(name: Seq<char>, members: Seq<UserRecord>) -> Seq<Seq<u8>> {
    seq![encode_utf8(name), "!".spec_bytes()] + member_names(members)
}

/// What packing a group record into a buffer of `capacity` bytes returns.
pub open spec fn group_fill(capacity: nat, gid: u32, name: Seq<char>, members: Seq<UserRecord>)
    -> BufferFillResult<GroupLayout> {
    let fields = group_fields(name, members);
    if any_nul(fields) {
        Err(BufferFillError::ZeroByteInString)
    } else if packed(fields).len() > capacity {
        Err(BufferFillError::InsufficientBuffer)
    } else {
        Ok(
            GroupLayout {
                gid,
                name: field_offset(fields, 0) as usize,
                passwd: field_offset(fields, 1) as usize,
                members: Seq::new(
                    members.len(),
                    |i: int| field_offset(fields, i + 2) as usize,
                ),
            },
        )
    }
}

/// The model of what packing a group record returned.
pub open spec fn group_fill_view(r: BufferFillResult<GroupEntry>) -> BufferFillResult<
    GroupLayout,
> {
    match r {
        Ok(entry) => Ok(entry@),
        Err(e) => Err(e),
    }
}

/// Two lists of fields, packed as one list, give the bytes of the first
/// and then the bytes of the second.
pub proof fn lemma_packed_concat(first: Seq<Seq<u8>>, second: Seq<Seq<u8>>)
    ensures
        packed(first + second) == packed(first) + packed(second),
    decreases second.len(),
{
    if second.len() == 0 {
        assert(first + second =~= first);
        assert(packed(first) + packed(second) =~= packed(first));
    } else {
        lemma_packed_concat(first, second.drop_last());
        assert((first + second).drop_last() =~= first + second.drop_last());
        assert(packed(first + second) =~= packed(first) + packed(second));
    }
}

/// Where the fields of a group record lie: the name, the placeholder, and
/// behind these three bytes more than the name the member names as they
/// would lie alone.
pub proof fn lemma_group_layout(name: Seq<char>, members: Seq<UserRecord>)
    ensures
        ({
            let fields = group_fields(name, members);
            let n = encode_utf8(name).len();
            &&& field_offset(fields, 0) == 0
            &&& field_offset(fields, 1) == n + 1
            &&& forall|i: int|
                0 <= i <= members.len() ==> #[trigger] field_offset(fields, i + 2) == n + 3
                    + field_offset(member_names(members), i)
            &&& packed(fields).len() == n + 3 + packed(member_names(members)).len()
        }),
{
    let fields = group_fields(name, members);
    let head = seq![encode_utf8(name), "!".spec_bytes()];
    let names = member_names(members);
    reveal_strlit("!");
    is_ascii_spec_bytes("!");
    assert("!".spec_bytes().len() == 1);
    lemma_packed_step(head, 0);
    lemma_packed_step(head, 1);
    assert(head.take(0) =~= Seq::<Seq<u8>>::empty());
    assert(head.take(2) =~= head);
    assert(fields.take(0) =~= head.take(0));
    assert(fields.take(1) =~= head.take(1));
    assert forall|i: int| 0 <= i <= members.len() implies #[trigger] field_offset(fields, i + 2)
        == encode_utf8(name).len() + 3 + field_offset(names, i) by {
        assert(fields.take(i + 2) =~= head + names.take(i));
        lemma_packed_concat(head, names.take(i));
    }
    assert(fields =~= head + names);
    lemma_packed_concat(head, names);
    assert(packed(head).len() == encode_utf8(name).len() + 3);
    assert(field_offset(fields, 0) == 0);
    assert(field_offset(fields, 1) == encode_utf8(name).len() + 1);
}

/// A group record cannot be stored exactly when its name or the login name
/// of a member holds a terminator byte.
pub proof fn lemma_group_fields_nul(name: Seq<char>, members: Seq<UserRecord>)
    ensures
        any_nul(group_fields(name, members)) <==> has_nul(encode_utf8(name)) || any_nul(
            member_names(members),
        ),
{
    let fields = group_fields(name, members);
    let names = member_names(members);
    reveal_strlit("!");
    is_ascii_spec_bytes("!");
    assert("!".spec_bytes() =~= seq![33u8]);
    if has_nul(encode_utf8(name)) {
        assert(has_nul(fields[0]));
    }
    if any_nul(names) {
        let k = choose|k: int| 0 <= k < names.len() && has_nul(#[trigger] names[k]);
        assert(fields[k + 2] == names[k]);
    }
    if any_nul(fields) {
        let k = choose|k: int| 0 <= k < fields.len() && has_nul(#[trigger] fields[k]);
        if k >= 2 {
            assert(fields[k] == names[k - 2]);
        }
    }
}

/// Packs a group record and the login names of its members into `buffer`.
///
/// The table of pointers to the member names is not part of the buffer: the
/// caller builds it from the offsets returned. On every failure the buffer is
/// left as it was.
pub fn fill_group_buf(buffer: &mut [u8], gid: u32, name: &str, members: &[UserInfo]) -> (r:
    BufferFillResult<GroupEntry>)
    ensures
        group_fill_view(r) == group_fill(old(buffer)@.len(), gid, name@, members.deep_view()),
        r is Err ==> final(buffer)@ == old(buffer)@,
        r is Ok ==> final(buffer)@ == packed(group_fields(name@, members.deep_view())) + old(
            buffer,
        )@.skip(packed(group_fields(name@, members.deep_view())).len() as int),
{
    let ghost capacity = buffer@.len();
    let mut fields: Vec<Vec<u8>> = Vec::new();
    fields.push(name.as_bytes_vec());
    fields.push("!".as_bytes_vec());
    let mut i: usize = 0;
    while i < members.len()
        invariant
            i <= members.len(),
            fields@.len() == i + 2,
            byte_views(fields@) == group_fields(name@, members.deep_view()).take(i + 2),
        decreases members.len() - i,
    {
        fields.push(members[i].username().as_str().as_bytes_vec());
        i = i + 1;
    }
    assert(byte_views(fields@) =~= group_fields(name@, members.deep_view()));
    match pack_fields(buffer, &fields) {
        Ok(offsets) => {
            let mut starts: Vec<usize> = Vec::new();
            let mut k: usize = 2;
            while k < offsets.len()
                invariant
                    2 <= k <= offsets.len(),
                    starts@ == offsets@.subrange(2, k as int),
                decreases offsets.len() - k,
            {
                starts.push(offsets[k]);
                k = k + 1;
            }
            let entry = GroupEntry { gid, name: offsets[0], passwd: offsets[1], members: starts };
            assert(group_fill_view(Ok(entry)) =~= group_fill(
                capacity,
                gid,
                name@,
                members.deep_view(),
            )) by {
                assert(entry@.members =~= group_fill(
                    capacity,
                    gid,
                    name@,
                    members.deep_view(),
                )->Ok_0.members);
            }
            Ok(entry)
        },
        Err(e) => Err(e),
    }
}

} // verus!
