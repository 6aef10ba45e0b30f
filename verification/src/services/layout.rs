//! How the store names things on disk: paths as text, joined with `/`.
//!
//! ```text
//! <root>/config.json
//! <root>/users/<tenant>/config.json
//! <root>/users/<tenant>/checkins/<record>.json
//! <root>/users/<tenant>/trips/
//! <root>/logs/panic_events/<stamp>-<id>.json
//! ```

use crate::ids::is_hex_text;
use crate::text::{chars_of, concat, has_prefix, has_suffix, text_of_range};
use vstd::prelude::*;

verus! {

/// `name` adjoined to `base`: an absolute `name` stands for itself; otherwise
/// the two are put together, with a `/` between them unless `base` is empty or
/// already ends in one.
pub open spec fn join_path(base: Seq<char>, name: Seq<char>) -> Seq<char> {
    if name.len() > 0 && name[0] == '/' {
        name
    } else if base.len() > 0 && base.last() != '/' {
        base + seq!['/'] + name
    } else {
        base + name
    }
}

/// A text that is safe as one segment of a path: not empty, without `/`, and
/// neither `.` nor `..`.
pub open spec fn is_segment(s: Seq<char>) -> bool {
    &&& s.len() > 0
    &&& forall|i: int| 0 <= i < s.len() ==> s[i] != '/'
    &&& s != seq!['.']
    &&& s != seq!['.', '.']
}

/// `path` lies below the directory `dir`.
pub open spec fn is_under(dir: Seq<char>, path: Seq<char>) -> bool {
    has_prefix(path, dir + seq!['/']) && path.len() > dir.len() + 1
}

/// `path` names an entry of the directory `dir`: `dir`, a `/`, and one segment.
pub open spec fn is_entry_of(dir: Seq<char>, path: Seq<char>) -> bool {
    exists|name: Seq<char>| is_segment(name) && #[trigger] (dir + seq!['/'] + name) == path
}

/// `i` is where the extension of `name` begins: the last `.`, unless it is the
/// first character.
pub open spec fn is_stem_cut(name: Seq<char>, i: int) -> bool {
    &&& 0 < i < name.len()
    &&& name[i] == '.'
    &&& forall|j: int| i < j < name.len() ==> name[j] != '.'
}

/// `name` without its extension.
pub open spec fn stem_of(name: Seq<char>) -> Seq<char> {
    if exists|i: int| is_stem_cut(name, i) {
        name.take(choose|i: int| is_stem_cut(name, i))
    } else {
        name
    }
}

/// The name of the temporary file that stands in for `name` while it is
/// written: the extension gives way to `tmp-` and the suffix.
pub open spec fn temp_name_of(name: Seq<char>, suffix: Seq<char>) -> Seq<char> {
    stem_of(name) + ".tmp-"@ + suffix
}

pub open spec fn global_config_path_of(root: Seq<char>) -> Seq<char> {
    join_path(root, "config.json"@)
}

pub open spec fn users_root_of(root: Seq<char>) -> Seq<char> {
    join_path(root, "users"@)
}

pub open spec fn logs_root_of(root: Seq<char>) -> Seq<char> {
    join_path(root, "logs"@)
}

pub open spec fn panic_log_dir_of(root: Seq<char>) -> Seq<char> {
    join_path(logs_root_of(root), "panic_events"@)
}

pub open spec fn user_dir_of(root: Seq<char>, tenant: Seq<char>) -> Seq<char> {
    join_path(users_root_of(root), tenant)
}

pub open spec fn user_checkins_dir_of(root: Seq<char>, tenant: Seq<char>) -> Seq<char> {
    join_path(user_dir_of(root, tenant), "checkins"@)
}

pub open spec fn user_trips_dir_of(root: Seq<char>, tenant: Seq<char>) -> Seq<char> {
    join_path(user_dir_of(root, tenant), "trips"@)
}

pub open spec fn user_config_path_of(root: Seq<char>, tenant: Seq<char>) -> Seq<char> {
    join_path(user_dir_of(root, tenant), "config.json"@)
}

/// The file name of the check-in `id`.
pub open spec fn checkin_file_name(id: Seq<char>) -> Seq<char> {
    id + ".json"@
}

pub open spec fn checkin_path_of(root: Seq<char>, tenant: Seq<char>, id: Seq<char>) -> Seq<char> {
    join_path(user_checkins_dir_of(root, tenant), checkin_file_name(id))
}

/// The file name of a panic event: its instant, written so that names sort as
/// instants do, then the identifier.
pub open spec fn panic_event_file_name(stamp: Seq<char>, id: Seq<char>) -> Seq<char> {
    stamp + "-"@ + id + ".json"@
}

pub open spec fn panic_event_path_of(root: Seq<char>, stamp: Seq<char>, id: Seq<char>) -> Seq<
    char,
> {
    join_path(panic_log_dir_of(root), panic_event_file_name(stamp, id))
}

/// A text that begins with `p` holds the characters of `p` at its start.
pub proof fn lemma_prefix_index(s: Seq<char>, p: Seq<char>, i: int)
    requires
        has_prefix(s, p),
        0 <= i < p.len(),
    ensures
        s[i] == p[i],
{
    assert(s.subrange(0, p.len() as int)[i] == s[i]);
}

/// A segment adjoined to a directory: the directory, a `/` unless the
/// directory is empty or ends in one, and the segment.
pub proof fn lemma_join_segment(base: Seq<char>, name: Seq<char>)
    requires
        is_segment(name),
    ensures
        join_path(base, name) == if base.len() > 0 && base.last() != '/' {
            base + seq!['/'] + name
        } else {
            base + name
        },
        join_path(base, name).len() > 0,
        join_path(base, name).last() == name.last(),
        has_suffix(join_path(base, name), name),
{
    let j = join_path(base, name);
    assert(name[0] != '/');
    assert(j.subrange(j.len() - name.len(), j.len() as int) == name);
}

/// Two different segments of one directory have different paths.
pub proof fn lemma_join_apart(base: Seq<char>, a: Seq<char>, b: Seq<char>)
    requires
        is_segment(a),
        is_segment(b),
        a != b,
    ensures
        join_path(base, a) != join_path(base, b),
{
    lemma_join_segment(base, a);
    lemma_join_segment(base, b);
    let pre = if base.len() > 0 && base.last() != '/' {
        base + seq!['/']
    } else {
        base
    };
    assert(join_path(base, a) == pre + a);
    assert(join_path(base, b) == pre + b);
    if pre + a == pre + b {
        assert(a.len() == b.len());
        assert forall|i: int| 0 <= i < a.len() implies a[i] == b[i] by {
            assert((pre + a)[pre.len() + i] == a[i]);
            assert((pre + b)[pre.len() + i] == b[i]);
        }
        assert(a =~= b);
    }
}

/// The stem of a name is a beginning of the name, and is empty only where
/// the name is.
pub proof fn lemma_stem_shape(name: Seq<char>)
    ensures
        has_prefix(name, stem_of(name)),
        name.len() > 0 ==> stem_of(name).len() > 0,
{
    if exists|i: int| is_stem_cut(name, i) {
        let i = choose|i: int| is_stem_cut(name, i);
        assert(name.take(i) == name.subrange(0, i));
    } else {
        assert(name.subrange(0, name.len() as int) == name);
    }
}

/// The temporary file of a document never has the document's own name: a
/// name that ends in `.json` differs from one that ends in `tmp-` and
/// hexadecimal digits.
pub proof fn lemma_temp_name_differs(name: Seq<char>, suffix: Seq<char>)
    requires
        has_suffix(name, ".json"@),
        is_hex_text(suffix),
    ensures
        temp_name_of(name, suffix) != name,
{
    reveal_strlit(".json");
    reveal_strlit(".tmp-");
    let t = temp_name_of(name, suffix);
    let tail = name.subrange(name.len() - 5, name.len() as int);
    assert(tail[4] == 'n');
    assert(name.last() == 'n');
    let marked = stem_of(name) + ".tmp-"@;
    if suffix.len() > 0 {
        assert(t.last() == suffix.last());
        assert(crate::ids::is_hex_lower(suffix[suffix.len() - 1]));
    } else {
        assert(t =~= marked);
        assert(marked.last() == ".tmp-"@[4]);
    }
}

/// The temporary file of a segment is a segment again: it stays in the
/// directory of the file it stands in for.
pub proof fn lemma_temp_name_is_segment(name: Seq<char>, suffix: Seq<char>)
    requires
        is_segment(name),
        is_hex_text(suffix),
    ensures
        is_segment(temp_name_of(name, suffix)),
{
    reveal_strlit(".tmp-");
    lemma_stem_shape(name);
    let st = stem_of(name);
    let t = temp_name_of(name, suffix);
    assert(t.len() == st.len() + 5 + suffix.len());
    assert forall|i: int| 0 <= i < t.len() implies t[i] != '/' by {
        if i < st.len() {
            lemma_prefix_index(name, st, i);
            assert(t[i] == st[i]);
        } else if i < st.len() + 5 {
            assert(t[i] == ".tmp-"@[i - st.len()]);
        } else {
            assert(t[i] == suffix[i - st.len() - 5]);
            assert(crate::ids::is_hex_lower(suffix[i - st.len() - 5]));
        }
    }
}

/// The directory of the tenants is never empty and never ends in `/`.
pub proof fn lemma_users_root_shape(root: Seq<char>)
    ensures
        users_root_of(root).len() > 0,
        users_root_of(root).last() == 's',
{
    reveal_strlit("users");
    let u = "users"@;
    assert(u[0] == 'u' && u[4] == 's' && u.len() == 5);
    let j = users_root_of(root);
    if root.len() > 0 && root.last() != '/' {
        assert(j == root + seq!['/'] + u);
        assert(j.last() == u[4]);
    } else {
        assert(j == root + u);
        assert(j.last() == u[4]);
    }
}

/// A tenant's directory: the directory of the tenants, a `/`, the tenant.
pub proof fn lemma_user_dir_shape(root: Seq<char>, tenant: Seq<char>)
    requires
        is_segment(tenant),
    ensures
        user_dir_of(root, tenant) == users_root_of(root) + seq!['/'] + tenant,
        user_dir_of(root, tenant).len() > 0,
        user_dir_of(root, tenant).last() != '/',
{
    lemma_users_root_shape(root);
    lemma_join_segment(users_root_of(root), tenant);
    assert(tenant[tenant.len() - 1] != '/');
}

/// An entry of a directory below a directory lies below that directory.
pub proof fn lemma_under_step(top: Seq<char>, dir: Seq<char>, name: Seq<char>)
    requires
        dir == top || is_under(top, dir),
        dir.len() > 0,
        dir.last() != '/',
        is_segment(name),
    ensures
        is_under(top, join_path(dir, name)),
        join_path(dir, name) == dir + seq!['/'] + name,
        join_path(dir, name).last() != '/',
{
    lemma_join_segment(dir, name);
    let p = join_path(dir, name);
    let lead = top + seq!['/'];
    assert(name[name.len() - 1] != '/');
    if dir == top {
        assert(p.subrange(0, lead.len() as int) == lead);
    } else {
        assert forall|i: int| 0 <= i < lead.len() implies p.subrange(0, lead.len() as int)[i]
            == lead[i] by {
            lemma_prefix_index(dir, lead, i);
            assert(p[i] == dir[i]);
        }
        assert(p.subrange(0, lead.len() as int) =~= lead);
    }
}

/// Where a tenant's documents lie: its configuration, its directories, and
/// every check-in file and temporary file in them, all below the tenant's own
/// directory.
pub proof fn lemma_tenant_owns_its_paths(root: Seq<char>, tenant: Seq<char>, file: Seq<char>)
    requires
        is_segment(tenant),
        is_segment(file),
    ensures
        is_under(user_dir_of(root, tenant), user_config_path_of(root, tenant)),
        is_under(user_dir_of(root, tenant), user_checkins_dir_of(root, tenant)),
        is_under(user_dir_of(root, tenant), user_trips_dir_of(root, tenant)),
        is_under(user_dir_of(root, tenant), join_path(user_dir_of(root, tenant), file)),
        is_under(user_dir_of(root, tenant), join_path(user_checkins_dir_of(root, tenant), file)),
{
    reveal_strlit("config.json");
    reveal_strlit("checkins");
    reveal_strlit("trips");
    lemma_user_dir_shape(root, tenant);
    let dir = user_dir_of(root, tenant);
    assert(is_segment("config.json"@)) by {
        assert("config.json"@.len() == 11);
    }
    assert(is_segment("checkins"@)) by {
        assert("checkins"@.len() == 8);
    }
    assert(is_segment("trips"@)) by {
        assert("trips"@.len() == 5);
    }
    lemma_under_step(dir, dir, "config.json"@);
    lemma_under_step(dir, dir, "checkins"@);
    lemma_under_step(dir, dir, "trips"@);
    lemma_under_step(dir, dir, file);
    lemma_under_step(dir, user_checkins_dir_of(root, tenant), file);
}

/// Tenants are apart: no path lies below the directories of two different
/// tenants.
pub proof fn lemma_tenants_apart(root: Seq<char>, a: Seq<char>, b: Seq<char>, path: Seq<char>)
    requires
        is_segment(a),
        is_segment(b),
        a != b,
    ensures
        !(is_under(user_dir_of(root, a), path) && is_under(user_dir_of(root, b), path)),
{
    lemma_user_dir_shape(root, a);
    lemma_user_dir_shape(root, b);
    let u = users_root_of(root) + seq!['/'];
    let la = u + a + seq!['/'];
    let lb = u + b + seq!['/'];
    assert(user_dir_of(root, a) + seq!['/'] =~= la);
    assert(user_dir_of(root, b) + seq!['/'] =~= lb);
    if has_prefix(path, la) && has_prefix(path, lb) {
        if a.len() < b.len() {
            lemma_prefix_index(path, la, (u.len() + a.len()) as int);
            lemma_prefix_index(path, lb, (u.len() + a.len()) as int);
            assert(la[(u.len() + a.len()) as int] == '/');
            assert(lb[(u.len() + a.len()) as int] == b[a.len() as int]);
        } else if b.len() < a.len() {
            lemma_prefix_index(path, la, (u.len() + b.len()) as int);
            lemma_prefix_index(path, lb, (u.len() + b.len()) as int);
            assert(lb[(u.len() + b.len()) as int] == '/');
            assert(la[(u.len() + b.len()) as int] == a[b.len() as int]);
        } else {
            assert forall|i: int| 0 <= i < a.len() implies a[i] == b[i] by {
                lemma_prefix_index(path, la, u.len() + i);
                lemma_prefix_index(path, lb, u.len() + i);
                assert(la[u.len() + i] == a[i]);
                assert(lb[u.len() + i] == b[i]);
            }
            assert(a =~= b);
        }
    }
}

/// `name` adjoined to `base`.
pub fn join(base: &str, name: &str) -> (r: String)
    ensures
        r@ == join_path(base@, name@),
{
    let b = chars_of(base);
    let n = chars_of(name);
    if n.len() > 0 && n[0] == '/' {
        name.to_owned()
    } else if b.len() > 0 && b[b.len() - 1] != '/' {
        proof {
            reveal_strlit("/");
            assert("/"@ =~= seq!['/']);
        }
        let with_sep = concat(base, "/");
        concat(with_sep.as_str(), name)
    } else {
        concat(base, name)
    }
}

/// `name` without its extension.
pub fn stem(name: &str) -> (r: String)
    ensures
        r@ == stem_of(name@),
{
    let v = chars_of(name);
    let mut i: usize = v.len();
    while i > 1 && v[i - 1] != '.'
        invariant
            i <= v.len(),
            forall|j: int| i <= j < v.len() ==> v@[j] != '.',
        decreases i,
    {
        i -= 1;
    }
    if i > 1 {
        let cut: usize = i - 1;
        proof {
            assert(is_stem_cut(v@, cut as int));
            let chosen = choose|k: int| is_stem_cut(v@, k);
            assert(is_stem_cut(v@, chosen));
            assert(chosen == cut);
        }
        text_of_range(&v, 0, cut)
    } else {
        proof {
            assert forall|k: int| !is_stem_cut(v@, k) by {
                if is_stem_cut(v@, k) {
                    assert(k >= i);
                }
            }
        }
        name.to_owned()
    }
}

/// The name of the temporary file for `name` under the suffix `suffix`.
pub fn temp_name(name: &str, suffix: &str) -> (r: String)
    ensures
        r@ == temp_name_of(name@, suffix@),
{
    let s = stem(name);
    let marked = concat(s.as_str(), ".tmp-");
    concat(marked.as_str(), suffix)
}

} // verus!
