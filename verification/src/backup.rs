use vstd::prelude::*;
use vstd::utf8::*;
use crate::downloader::{before_first, first_index_of};
use crate::sync::{extension_spec, has_extension};
use crate::text::{chars_of, concat, seq_ends_with, seq_starts_with, str_starts_with, string_from, string_of};

verus! {

broadcast use vstd::utf8::char_is_scalar;

/// The number of bytes of the UTF-8 encoding of `s`, which is what `str::len`
/// counts.
pub open spec fn byte_len(s: Seq<char>) -> nat {
    encode_utf8(s).len()
}

/// `s` cut at byte offset `n`, as `&s[..n]` and `&s[n..]` cut it; `None` where
/// `n` is past the end or falls inside a character's encoding (the slicing would
/// panic there).
pub open spec fn cut(s: Seq<char>, n: nat) -> Option<(Seq<char>, Seq<char>)>
    decreases s.len(),
{
    if n == 0 {
        Some((Seq::empty(), s))
    } else if s.len() == 0 {
        None
    } else {
        let w = encode_scalar(s[0] as u32).len();
        if w > n {
            None
        } else {
            match cut(s.drop_first(), (n - w) as nat) {
                Some((a, b)) => Some((seq![s[0]] + a, b)),
                None => None,
            }
        }
    }
}

/// `s` without its trailing `.zip`s, as `trim_end_matches(".zip")` leaves it.
pub open spec fn trim_zip_suffix(s: Seq<char>) -> Seq<char>
    decreases s.len(),
{
    if seq_ends_with(s, ".zip"@) && s.len() >= 4 {
        trim_zip_suffix(s.take(s.len() - 4))
    } else {
        s
    }
}

/// The date shown for a backup file: for a name `backup_YYYYMMDD_HHMMSS.zip` (at
/// least 22 bytes long, whose second and third `_`-separated parts, the third
/// without trailing `.zip`, are 8 and 6 bytes long), `YYYY-MM-DD HH:MM:SS`, the
/// parts cut at those byte offsets; `Unknown date` for any other name. `None` where
/// a cut falls inside a multi-byte character.
pub open spec fn backup_label_spec(name: Seq<char>) -> Option<Seq<char>> {
    if !(seq_starts_with(name, "backup_"@) && byte_len(name) >= 22) {
        Some("Unknown date"@)
    } else {
        let rest = name.skip(7);
        let i = first_index_of(rest, '_');
        if i >= rest.len() {
            Some("Unknown date"@)
        } else {
            let date = rest.take(i);
            let time = trim_zip_suffix(before_first(rest.skip(i + 1), '_'));
            if byte_len(date) == 8 && byte_len(time) == 6 {
                match (cut(date, 4), cut(time, 2)) {
                    (Some((y, md)), Some((h, ms))) => match (cut(md, 2), cut(ms, 2)) {
                        (Some((m, d)), Some((mi, s))) => Some(
                            y + "-"@ + m + "-"@ + d + " "@ + h + ":"@ + mi + ":"@ + s,
                        ),
                        _ => None,
                    },
                    _ => None,
                }
            } else {
                Some("Unknown date"@)
            }
        }
    }
}

fn char_width(c: char) -> (r: usize)
    ensures
        r == encode_scalar(c as u32).len(),
        1 <= r <= 4,
{
    let u = c as u32;
    if u <= 0x7F {
        1
    } else if u <= 0x7FF {
        2
    } else if u <= 0xFFFF {
        3
    } else {
        4
    }
}

/// The number of bytes of the UTF-8 encoding of `s`.
fn byte_len_of(s: &[char]) -> (r: usize)
    ensures
        r == byte_len(s@),
{
    let st = string_of(s);
    let b = st.as_str().as_bytes();
    b.len()
}

pub open spec fn prepend(p: Seq<char>, o: Option<(Seq<char>, Seq<char>)>) -> Option<(Seq<char>, Seq<char>)> {
    match o {
        Some((a, b)) => Some((p + a, b)),
        None => None,
    }
}

/// Where `s` is cut at byte offset `n`: the number of characters before the cut.
fn cut_index(s: &[char], n: usize) -> (r: Option<usize>)
    requires
        n <= 8,
    ensures
        match r {
            Some(k) => k <= s@.len() && cut(s@, n as nat) == Some((s@.take(k as int), s@.skip(k as int))),
            None => cut(s@, n as nat).is_none(),
        },
{
    let mut acc: usize = 0;
    let mut i: usize = 0;
    assert(s@.take(0) =~= Seq::<char>::empty());
    assert(s@.skip(0) =~= s@);
    assert(prepend(Seq::empty(), cut(s@, n as nat)) == cut(s@, n as nat)) by {
        match cut(s@, n as nat) {
            Some((a, b)) => { assert(Seq::<char>::empty() + a =~= a); },
            None => {},
        }
    }
    while acc < n && i < s.len()
        invariant
            acc <= n <= 8,
            i <= s@.len(),
            cut(s@, n as nat) == prepend(s@.take(i as int), cut(s@.skip(i as int), (n - acc) as nat)),
        decreases s.len() - i,
    {
        let w = char_width(s[i]);
        let ghost t = s@.skip(i as int);
        assert(t[0] == s@[i as int]);
        assert(t.drop_first() =~= s@.skip(i + 1));
        if w > n - acc {
            return None;
        }
        proof {
            let x = cut(s@.skip(i + 1), (n - acc - w) as nat);
            assert(cut(t, (n - acc) as nat) == prepend(seq![s@[i as int]], x));
            match x {
                Some((a, b)) => {
                    assert(s@.take(i as int) + (seq![s@[i as int]] + a) =~= s@.take(i + 1) + a);
                },
                None => {},
            }
        }
        acc = acc + w;
        i = i + 1;
    }
    if acc == n {
        proof {
            assert(cut(s@.skip(i as int), 0) == Some((Seq::<char>::empty(), s@.skip(i as int))));
            assert(s@.take(i as int) + Seq::<char>::empty() =~= s@.take(i as int));
        }
        Some(i)
    } else {
        assert(s@.skip(i as int) =~= Seq::<char>::empty());
        None
    }
}

/// The position of the first `c` in `s`, or its length.
fn find_first(s: &[char], c: char) -> (r: usize)
    ensures
        r as int == first_index_of(s@, c),
        r <= s@.len(),
        forall|j: int| 0 <= j < r ==> s@[j] != c,
        r < s@.len() ==> s@[r as int] == c,
{
    let mut i: usize = 0;
    while i < s.len() && s[i] != c
        invariant
            i <= s@.len(),
            forall|j: int| 0 <= j < i ==> s@[j] != c,
        decreases s.len() - i,
    {
        i = i + 1;
    }
    proof {
        lemma_first_index_of(s@, c, i as int);
    }
    i
}

proof fn lemma_first_index_of(s: Seq<char>, c: char, k: int)
    requires
        0 <= k <= s.len(),
        forall|j: int| 0 <= j < k ==> s[j] != c,
        k == s.len() || s[k] == c,
    ensures
        first_index_of(s, c) == k,
        before_first(s, c) == s.take(k),
    decreases s.len(),
{
    if s.len() > 0 {
        if k == 0 {
            assert(s.take(0) =~= Seq::<char>::empty());
        } else {
            lemma_first_index_of(s.drop_first(), c, k - 1);
            assert(seq![s[0]] + s.drop_first().take(k - 1) =~= s.take(k));
        }
    } else {
        assert(s.take(0) =~= s);
    }
}

fn trim_zip(s: &[char]) -> (r: usize)
    ensures
        r <= s@.len(),
        s@.take(r as int) == trim_zip_suffix(s@),
{
    let mut n: usize = s.len();
    assert(s@.take(n as int) =~= s@);
    while n >= 4 && s[n - 4] == '.' && s[n - 3] == 'z' && s[n - 2] == 'i' && s[n - 1] == 'p'
        invariant
            n <= s@.len(),
            trim_zip_suffix(s@.take(n as int)) == trim_zip_suffix(s@),
        decreases n,
    {
        proof {
            let t = s@.take(n as int);
            reveal_strlit(".zip");
            assert(t.subrange(t.len() - 4, t.len() as int) =~= ".zip"@);
            assert(t.take(t.len() - 4) =~= s@.take(n - 4));
        }
        n = n - 4;
    }
    proof {
        let t = s@.take(n as int);
        reveal_strlit(".zip");
        if seq_ends_with(t, ".zip"@) && t.len() >= 4 {
            assert(t.subrange(t.len() - 4, t.len() as int)[0] == '.');
            assert(t.subrange(t.len() - 4, t.len() as int)[1] == 'z');
            assert(t.subrange(t.len() - 4, t.len() as int)[2] == 'i');
            assert(t.subrange(t.len() - 4, t.len() as int)[3] == 'p');
        }
    }
    n
}

/// The date shown for a backup file, from its name; `None` where the name's date or
/// time part would be cut inside a multi-byte character.
pub fn backup_date_label(filename: &str) -> (r: Option<String>)
    ensures
        match backup_label_spec(filename@) {
            Some(l) => r matches Some(s) && s@ == l,
            None => r.is_none(),
        },
{
    proof {
        reveal_strlit("backup_");
    }
    let bytes = filename.as_bytes();
    if !(str_starts_with(filename, "backup_") && bytes.len() >= 22) {
        return Some(string_from("Unknown date"));
    }
    let name = chars_of(filename);
    let rest = &name.as_slice()[7..name.len()];
    assert(rest@ =~= filename@.skip(7));
    let i = find_first(rest, '_');
    if i >= rest.len() {
        return Some(string_from("Unknown date"));
    }
    let date = &rest[0..i];
    assert(date@ =~= rest@.take(i as int));
    let after = &rest[i + 1..rest.len()];
    assert(after@ =~= rest@.skip(i + 1));
    let j = find_first(after, '_');
    proof {
        lemma_first_index_of(after@, '_', j as int);
    }
    let third = &after[0..j];
    assert(third@ =~= after@.take(j as int));
    let k = trim_zip(third);
    let time = &third[0..k];
    assert(time@ =~= third@.take(k as int));
    if !(byte_len_of(date) == 8 && byte_len_of(time) == 6) {
        return Some(string_from("Unknown date"));
    }
    let c1 = cut_index(date, 4);
    let c2 = cut_index(time, 2);
    match (c1, c2) {
        (Some(a), Some(b)) => {
            let y = &date[0..a];
            let md = &date[a..date.len()];
            let h = &time[0..b];
            let ms = &time[b..time.len()];
            assert(y@ =~= date@.take(a as int));
            assert(md@ =~= date@.skip(a as int));
            assert(h@ =~= time@.take(b as int));
            assert(ms@ =~= time@.skip(b as int));
            let c3 = cut_index(md, 2);
            let c4 = cut_index(ms, 2);
            match (c3, c4) {
                (Some(p), Some(q)) => {
                    let m = &md[0..p];
                    let d = &md[p..md.len()];
                    let mi = &ms[0..q];
                    let s = &ms[q..ms.len()];
                    assert(m@ =~= md@.take(p as int));
                    assert(d@ =~= md@.skip(p as int));
                    assert(mi@ =~= ms@.take(q as int));
                    assert(s@ =~= ms@.skip(q as int));
                    let mut out = string_of(y);
                    out.append("-");
                    out.append(string_of(m).as_str());
                    out.append("-");
                    out.append(string_of(d).as_str());
                    out.append(" ");
                    out.append(string_of(h).as_str());
                    out.append(":");
                    out.append(string_of(mi).as_str());
                    out.append(":");
                    out.append(string_of(s).as_str());
                    Some(out)
                },
                _ => None,
            }
        },
        _ => None,
    }
}


/// What the backups list shows of a backup file. The size is kept in bytes.
#[derive(Debug)]
pub struct BackupInfo {
    pub filename: String,
    pub date_str: String,
    pub size_bytes: u64,
}

/// The directories and files that a backup holds, relative to the server directory.
pub fn backup_targets() -> (r: Vec<String>)
    ensures
        r@.len() == 6,
        r@[0]@ == "world"@,
        r@[1]@ == "world_nether"@,
        r@[2]@ == "world_the_end"@,
        r@[3]@ == "mods"@,
        r@[4]@ == "plugins"@,
        r@[5]@ == "server.properties"@,
{
    let mut r: Vec<String> = Vec::new();
    r.push(string_from("world"));
    r.push(string_from("world_nether"));
    r.push(string_from("world_the_end"));
    r.push(string_from("mods"));
    r.push(string_from("plugins"));
    r.push(string_from("server.properties"));
    r
}

/// The name of a new backup file, from the time stamp it is made at.
pub fn backup_file_name(stamp: &str) -> (r: String)
    ensures
        r@ == "backup_"@ + stamp@ + ".zip"@,
{
    let a = concat("backup_", stamp);
    concat(a.as_str(), ".zip")
}

/// Whether `a` comes before `b` in the order of `String`'s `Ord`: byte by byte,
/// a proper prefix first.
pub open spec fn bytes_lt(a: Seq<u8>, b: Seq<u8>) -> bool
    decreases a.len(),
{
    if a.len() == 0 {
        b.len() > 0
    } else if b.len() == 0 {
        false
    } else if a[0] != b[0] {
        a[0] < b[0]
    } else {
        bytes_lt(a.drop_first(), b.drop_first())
    }
}

proof fn lemma_bytes_lt_order(a: Seq<u8>, b: Seq<u8>, c: Seq<u8>)
    ensures
        !(bytes_lt(a, b) && bytes_lt(b, a)),
        !bytes_lt(a, b) && !bytes_lt(b, a) ==> a =~= b,
        bytes_lt(a, b) && bytes_lt(b, c) ==> bytes_lt(a, c),
    decreases a.len(),
{
    if a.len() > 0 && b.len() > 0 && c.len() > 0 {
        lemma_bytes_lt_order(a.drop_first(), b.drop_first(), c.drop_first());
        if !bytes_lt(a, b) && !bytes_lt(b, a) {
            assert(a =~= seq![a[0]] + a.drop_first());
            assert(b =~= seq![b[0]] + b.drop_first());
        }
    } else if a.len() > 0 && b.len() > 0 {
        lemma_bytes_lt_order(a.drop_first(), b.drop_first(), c);
        if !bytes_lt(a, b) && !bytes_lt(b, a) {
            assert(a =~= seq![a[0]] + a.drop_first());
            assert(b =~= seq![b[0]] + b.drop_first());
        }
    }
}

fn bytes_less(a: &[u8], b: &[u8]) -> (r: bool)
    ensures
        r == bytes_lt(a@, b@),
{
    let mut i: usize = 0;
    assert(a@.skip(0) =~= a@ && b@.skip(0) =~= b@);
    while i < a.len() && i < b.len() && a[i] == b[i]
        invariant
            i <= a@.len(),
            i <= b@.len(),
            bytes_lt(a@, b@) == bytes_lt(a@.skip(i as int), b@.skip(i as int)),
        decreases a.len() - i,
    {
        proof {
            let x = a@.skip(i as int);
            let y = b@.skip(i as int);
            assert(x.drop_first() =~= a@.skip(i + 1));
            assert(y.drop_first() =~= b@.skip(i + 1));
        }
        i = i + 1;
    }
    let ghost x = a@.skip(i as int);
    let ghost y = b@.skip(i as int);
    if i == a.len() {
        i < b.len()
    } else if i == b.len() {
        false
    } else {
        assert(x[0] == a@[i as int] && y[0] == b@[i as int]);
        a[i] < b[i]
    }
}

/// The bytes of a backup's file name.
pub open spec fn name_bytes(b: BackupInfo) -> Seq<u8> {
    encode_utf8(b.filename@)
}


/// Newest first: by file name, from the last in `String` order to the first.
pub open spec fn sorted_newest_first(s: Seq<BackupInfo>) -> bool {
    forall|i: int, j: int| 0 <= i < j < s.len() ==> !bytes_lt(name_bytes(s[i]), name_bytes(s[j]))
}

proof fn lemma_insert_multiset(s: Seq<BackupInfo>, p: int, x: BackupInfo)
    requires
        0 <= p <= s.len(),
    ensures
        s.insert(p, x).to_multiset() =~= s.to_multiset().insert(x),
{
    broadcast use vstd::seq_lib::group_to_multiset_ensures;
    let t = s.insert(p, x);
    t.to_multiset_ensures();
    assert(t.remove(p) =~= s);
    assert(t[p] == x);
    assert(t.contains(x));
    assert(s.to_multiset() =~= t.to_multiset().remove(x));
    assert(t.to_multiset().count(x) > 0);
}

/// Where `x` goes into a list sorted newest first: before the first backup whose
/// name comes before its name, so after those with the same name.
pub open spec fn insert_pos(s: Seq<BackupInfo>, x: BackupInfo) -> int
    decreases s.len(),
{
    if s.len() == 0 {
        0
    } else if bytes_lt(name_bytes(s[0]), name_bytes(x)) {
        0
    } else {
        1 + insert_pos(s.drop_first(), x)
    }
}

/// The list sorted newest first by inserting each backup in turn, as a stable sort
/// by descending name leaves it.
pub open spec fn sort_newest_spec(s: Seq<BackupInfo>) -> Seq<BackupInfo>
    decreases s.len(),
{
    if s.len() == 0 {
        s
    } else {
        let t = sort_newest_spec(s.drop_last());
        t.insert(insert_pos(t, s.last()), s.last())
    }
}

proof fn lemma_insert_pos(s: Seq<BackupInfo>, x: BackupInfo, p: int)
    requires
        0 <= p <= s.len(),
        forall|k: int| 0 <= k < p ==> !bytes_lt(name_bytes(#[trigger] s[k]), name_bytes(x)),
        p == s.len() || bytes_lt(name_bytes(s[p]), name_bytes(x)),
    ensures
        insert_pos(s, x) == p,
    decreases s.len(),
{
    if s.len() > 0 && p > 0 {
        assert forall|k: int| 0 <= k < p - 1 implies !bytes_lt(name_bytes(#[trigger] s.drop_first()[k]), name_bytes(x)) by {
            assert(s.drop_first()[k] == s[k + 1]);
        };
        lemma_insert_pos(s.drop_first(), x, p - 1);
    }
}

/// The backups, newest first, as the list shows them (a stable sort by file name,
/// descending).
pub fn sort_newest_first(list: Vec<BackupInfo>) -> (r: Vec<BackupInfo>)
    ensures
        r@ == sort_newest_spec(list@),
        sorted_newest_first(r@),
        r@.to_multiset() =~= list@.to_multiset(),
{
    broadcast use vstd::seq_lib::group_to_multiset_ensures;
    let ghost all = list@;
    let mut input = list;
    let mut out: Vec<BackupInfo> = Vec::new();
    let ghost mut i: int = 0;
    proof {
        assert(out@.to_multiset() =~= vstd::multiset::Multiset::<BackupInfo>::empty());
        assert(all.take(0) =~= Seq::<BackupInfo>::empty());
        assert(all.skip(0) =~= all);
    }
    while input.len() > 0
        invariant
            0 <= i <= all.len(),
            input@ == all.skip(i),
            out@ == sort_newest_spec(all.take(i)),
            sorted_newest_first(out@),
            out@.to_multiset().add(input@.to_multiset()) =~= all.to_multiset(),
        decreases input.len(),
    {
        let ghost before = input@;
        let x = input.remove(0);
        proof {
            assert(before.remove(0) =~= input@);
            assert(input@ =~= all.skip(i + 1));
            assert(all.take(i + 1).drop_last() =~= all.take(i));
            assert(all.take(i + 1).last() == x);
        }
        let mut p: usize = 0;
        while p < out.len()
            && !bytes_less(out[p].filename.as_str().as_bytes(), x.filename.as_str().as_bytes())
            invariant
                p <= out@.len(),
                forall|k: int| 0 <= k < p ==> !bytes_lt(name_bytes(out@[k]), name_bytes(x)),
            decreases out.len() - p,
        {
            p = p + 1;
        }
        let ghost old_out = out@;
        proof {
            assert forall|i: int, j: int| 0 <= i < j < old_out.len() + 1 implies !bytes_lt(
                name_bytes(old_out.insert(p as int, x)[i]),
                name_bytes(old_out.insert(p as int, x)[j]),
            ) by {
                let t = old_out.insert(p as int, x);
                if j < p {
                } else if j == p {
                } else if i > p {
                    assert(t[i] == old_out[i - 1] && t[j] == old_out[j - 1]);
                } else if i == p {
                    assert(t[j] == old_out[j - 1]);
                    assert(p < old_out.len());
                    assert(bytes_lt(name_bytes(old_out[p as int]), name_bytes(x)));
                    lemma_bytes_lt_order(name_bytes(old_out[p as int]), name_bytes(x), name_bytes(old_out[j - 1]));
                    lemma_bytes_lt_order(name_bytes(x), name_bytes(old_out[p as int]), name_bytes(old_out[j - 1]));
                } else {
                    assert(t[j] == old_out[j - 1] && t[i] == old_out[i]);
                }
            }
            lemma_insert_multiset(old_out, p as int, x);
        }
        proof {
            lemma_insert_pos(old_out, x, p as int);
        }
        out.insert(p, x);
        proof {
            i = i + 1;
            assert(before[0] == x);
            before.to_multiset_ensures();
            assert(before.remove(0).to_multiset() =~= before.to_multiset().remove(x));
            assert(before.contains(x));
            assert(before.to_multiset().count(x) > 0);
            assert(out@.to_multiset().add(input@.to_multiset()) =~= old_out.to_multiset().add(
                before.to_multiset(),
            ));
        }
    }
    proof {
        assert(all.take(i) =~= all);
    }
    out
}

/// The backup files among the files of the backups directory (name and size in
/// bytes): those with extension `zip`, in the same order, each with the date its
/// name shows; `None` where a name's date would be cut inside a character.
pub open spec fn backup_entries_spec(files: Seq<(Seq<char>, u64)>) -> Option<Seq<(Seq<char>, Seq<char>, u64)>>
    decreases files.len(),
{
    if files.len() == 0 {
        Some(Seq::empty())
    } else {
        let (name, size) = files.last();
        match backup_entries_spec(files.drop_last()) {
            None => None,
            Some(prev) => if extension_spec(name) == Some("zip"@) {
                match backup_label_spec(name) {
                    Some(label) => Some(prev.push((name, label, size))),
                    None => None,
                }
            } else {
                Some(prev)
            },
        }
    }
}

pub open spec fn file_views(files: Seq<(String, u64)>) -> Seq<(Seq<char>, u64)> {
    files.map_values(|f: (String, u64)| (f.0@, f.1))
}

pub open spec fn info_views(v: Seq<BackupInfo>) -> Seq<(Seq<char>, Seq<char>, u64)> {
    v.map_values(|b: BackupInfo| (b.filename@, b.date_str@, b.size_bytes))
}

proof fn lemma_entries_none_extends(fv: Seq<(Seq<char>, u64)>, k: int, m: int)
    requires
        0 <= k <= m <= fv.len(),
        backup_entries_spec(fv.take(k)).is_none(),
    ensures
        backup_entries_spec(fv.take(m)).is_none(),
    decreases m - k,
{
    if m > k {
        lemma_entries_none_extends(fv, k, m - 1);
        assert(fv.take(m).drop_last() =~= fv.take(m - 1));
    }
}

/// The backups among the files of the backups directory, in the order given.
pub fn backup_entries(files: Vec<(String, u64)>) -> (r: Option<Vec<BackupInfo>>)
    ensures
        match backup_entries_spec(file_views(files@)) {
            Some(e) => r matches Some(v) && info_views(v@) == e,
            None => r.is_none(),
        },
{
    let ghost fv = file_views(files@);
    let mut out: Vec<BackupInfo> = Vec::new();
    let mut rest = files;
    let ghost mut i: int = 0;
    let ghost n = fv.len();
    proof {
        assert(fv.take(0) =~= Seq::<(Seq<char>, u64)>::empty());
        assert(rest@ =~= files@.skip(0));
    }
    while rest.len() > 0
        invariant
            0 <= i <= n,
            n == fv.len(),
            fv == file_views(files@),
            rest@ =~= files@.skip(i),
            backup_entries_spec(fv.take(i as int)) == Some(info_views(out@)),
        decreases rest.len(),
    {
        let ghost before = rest@;
        let (name, size) = rest.remove(0);
        proof {
            assert(before.remove(0) =~= files@.skip(i + 1));
            assert(fv.take(i + 1).drop_last() =~= fv.take(i as int));
            assert(fv.take(i + 1).last() == (name@, size));
        }
        if has_extension(name.as_str(), "zip") {
            match backup_date_label(name.as_str()) {
                Some(label) => {
                    let ghost old_out = out@;
                    out.push(BackupInfo { filename: name, date_str: label, size_bytes: size });
                    assert(info_views(out@) =~= info_views(old_out).push(
                        (out@.last().filename@, out@.last().date_str@, size),
                    ));
                },
                None => {
                    proof {
                        lemma_entries_none_extends(fv, i + 1, n as int);
                        assert(fv.take(n as int) =~= fv);
                    }
                    return None;
                },
            }
        }
        proof {
            i = i + 1;
        }
    }
    assert(fv.take(i as int) =~= fv);
    Some(out)
}


/// Whether every character of `s` is a decimal digit.
pub open spec fn ascii_digits(s: Seq<char>) -> bool {
    forall|i: int| 0 <= i < s.len() ==> '0' <= #[trigger] s[i] <= '9'
}

pub open spec fn ascii_chars(s: Seq<char>) -> bool {
    forall|i: int| 0 <= i < s.len() ==> (#[trigger] s[i] as u32) < 0x80
}

proof fn lemma_ascii_byte_len(s: Seq<char>)
    requires
        ascii_chars(s),
    ensures
        byte_len(s) == s.len(),
    decreases s.len(),
{
    if s.len() > 0 {
        assert(ascii_chars(s.drop_first())) by {
            assert forall|i: int| 0 <= i < s.drop_first().len() implies (#[trigger] s.drop_first()[i] as u32) < 0x80 by {
                assert(s.drop_first()[i] == s[i + 1]);
            };
        };
        lemma_ascii_byte_len(s.drop_first());
        assert((s[0] as u32) < 0x80);
    }
}

proof fn lemma_cut_ascii(s: Seq<char>, n: nat)
    requires
        ascii_chars(s),
        n <= s.len(),
    ensures
        cut(s, n) == Some((s.take(n as int), s.skip(n as int))),
    decreases s.len(),
{
    if n == 0 {
        assert(s.take(0) =~= Seq::<char>::empty());
        assert(s.skip(0) =~= s);
    } else {
        let t = s.drop_first();
        assert(ascii_chars(t)) by {
            assert forall|i: int| 0 <= i < t.len() implies (#[trigger] t[i] as u32) < 0x80 by {
                assert(t[i] == s[i + 1]);
            };
        };
        assert((s[0] as u32) < 0x80);
        lemma_cut_ascii(t, (n - 1) as nat);
        assert(seq![s[0]] + t.take(n - 1) =~= s.take(n as int));
        assert(t.skip(n - 1) =~= s.skip(n as int));
    }
}

proof fn lemma_digits_ascii(s: Seq<char>)
    requires
        ascii_digits(s),
    ensures
        ascii_chars(s),
        forall|i: int| 0 <= i < s.len() ==> #[trigger] s[i] != '_',
{
    assert forall|i: int| 0 <= i < s.len() implies (#[trigger] s[i] as u32) < 0x80 by {
        assert('0' <= s[i] <= '9');
    };
}

/// A backup named from a time stamp `YYYYMMDD_HHMMSS` shows that date and time in
/// the list.
pub proof fn lemma_backup_name_shows_stamp(date: Seq<char>, time: Seq<char>)
    requires
        date.len() == 8,
        time.len() == 6,
        ascii_digits(date),
        ascii_digits(time),
    ensures
        backup_label_spec("backup_"@ + date + "_"@ + time + ".zip"@) == Some(
            date.subrange(0, 4) + "-"@ + date.subrange(4, 6) + "-"@ + date.subrange(6, 8) + " "@
                + time.subrange(0, 2) + ":"@ + time.subrange(2, 4) + ":"@ + time.subrange(4, 6),
        ),
{
    reveal_strlit("backup_");
    reveal_strlit("_");
    reveal_strlit(".zip");
    lemma_digits_ascii(date);
    lemma_digits_ascii(time);
    let name = "backup_"@ + date + "_"@ + time + ".zip"@;
    assert(name.len() == 26);
    assert(ascii_chars(name)) by {
        assert forall|i: int| 0 <= i < name.len() implies (#[trigger] name[i] as u32) < 0x80 by {
            if i < 7 {
            } else if i < 15 {
                assert(name[i] == date[i - 7]);
            } else if i == 15 {
            } else if i < 22 {
                assert(name[i] == time[i - 16]);
            } else {
            }
        };
    };
    lemma_ascii_byte_len(name);
    assert(name.subrange(0, 7) =~= "backup_"@);
    let rest = name.skip(7);
    assert(rest =~= date + "_"@ + time + ".zip"@);
    assert forall|j: int| 0 <= j < 8 implies #[trigger] rest[j] != '_' by {
        assert(rest[j] == date[j]);
    };
    lemma_first_index_of(rest, '_', 8);
    assert(rest.take(8) =~= date);
    let tail = rest.skip(9);
    assert(tail =~= time + ".zip"@);
    assert forall|j: int| 0 <= j < tail.len() implies #[trigger] tail[j] != '_' by {
        if j < 6 {
            assert(tail[j] == time[j]);
        }
    };
    lemma_first_index_of(tail, '_', tail.len() as int);
    assert(tail.take(tail.len() as int) =~= tail);
    assert(seq_ends_with(tail, ".zip"@)) by {
        assert(tail.subrange(tail.len() - 4, tail.len() as int) =~= ".zip"@);
    };
    assert(tail.take(tail.len() - 4) =~= time);
    assert(!seq_ends_with(time, ".zip"@)) by {
        if seq_ends_with(time, ".zip"@) {
            assert(time.subrange(2, 6)[3] == time[5]);
            assert('0' <= time[5] <= '9');
        }
    };
    assert(trim_zip_suffix(time) == time);
    assert(trim_zip_suffix(tail) == time);
    lemma_ascii_byte_len(date);
    lemma_ascii_byte_len(time);
    lemma_cut_ascii(date, 4);
    lemma_cut_ascii(time, 2);
    let md = date.skip(4);
    let ms = time.skip(2);
    assert(ascii_chars(md)) by {
        assert forall|i: int| 0 <= i < md.len() implies (#[trigger] md[i] as u32) < 0x80 by {
            assert(md[i] == date[i + 4]);
        };
    };
    assert(ascii_chars(ms)) by {
        assert forall|i: int| 0 <= i < ms.len() implies (#[trigger] ms[i] as u32) < 0x80 by {
            assert(ms[i] == time[i + 2]);
        };
    };
    lemma_cut_ascii(md, 2);
    lemma_cut_ascii(ms, 2);
    assert(date.take(4) =~= date.subrange(0, 4));
    assert(md.take(2) =~= date.subrange(4, 6));
    assert(md.skip(2) =~= date.subrange(6, 8));
    assert(time.take(2) =~= time.subrange(0, 2));
    assert(ms.take(2) =~= time.subrange(2, 4));
    assert(ms.skip(2) =~= time.subrange(4, 6));
}

} // verus!
