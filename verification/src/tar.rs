//! Archive planning: the path split used to archive a directory by its leaf
//! name, the randomly named archive, and the command vectors that create,
//! verify, extract, and remove it.

use vstd::prelude::*;
use vstd::string::StrSliceExecFns;
use vstd::string::StringExecFns;

use rand::Rng;

use crate::folder::Folder;
use crate::text::{is_space_char, is_space};

verus! {

/// `s` divided at every separator, as a sequence of segments; the result is
/// never empty, and an empty string yields one empty segment.
pub open spec fn spec_split(s: Seq<char>) -> Seq<Seq<char>>
    decreases s.len(),
{
    if s.len() == 0 {
        seq![Seq::<char>::empty()]
    } else {
        let rest = spec_split(s.drop_last());
        if s.last() == '/' {
            rest.push(Seq::<char>::empty())
        } else {
            rest.update(rest.len() - 1, rest.last().push(s.last()))
        }
    }
}

pub proof fn lemma_split_nonempty(s: Seq<char>)
    ensures
        spec_split(s).len() >= 1,
    decreases s.len(),
{
    if s.len() > 0 {
        lemma_split_nonempty(s.drop_last());
    }
}

/// A segment that survives the base-path rebuild: it holds at least one
/// non-whitespace character.
pub open spec fn has_visible_char(seg: Seq<char>) -> bool {
    exists|k: int| 0 <= k < seg.len() && !is_space_char(seg[k])
}

/// The base path rebuilt from a sequence of segments: each segment with a
/// visible character is appended behind a separator; the rest are dropped.
pub open spec fn spec_join_base(segs: Seq<Seq<char>>) -> Seq<char>
    decreases segs.len(),
{
    if segs.len() == 0 {
        Seq::<char>::empty()
    } else {
        let front = spec_join_base(segs.drop_last());
        if has_visible_char(segs.last()) {
            front + ("/")@ + segs.last()
        } else {
            front
        }
    }
}

/// The directory part of `path`: every segment but the last, rebuilt.
pub open spec fn spec_parent_dir(path: Seq<char>) -> Seq<char> {
    spec_join_base(spec_split(path).drop_last())
}

/// The last segment of `path`: the leaf entry to archive by its own name.
pub open spec fn spec_leaf(path: Seq<char>) -> Seq<char> {
    spec_split(path).last()
}

fn has_visible(s: &str, lo: usize, hi: usize) -> (r: bool)
    requires
        lo <= hi <= s@.len(),
    ensures
        r == has_visible_char(s@.subrange(lo as int, hi as int)),
{
    let mut k: usize = lo;
    while k < hi
        invariant
            lo <= k <= hi <= s@.len(),
            forall|j: int| lo <= j < k ==> is_space_char(s@[j]),
        decreases hi - k,
    {
        if !is_space(s.get_char(k)) {
            proof {
                let seg = s@.subrange(lo as int, hi as int);
                assert(seg[k - lo] == s@[k as int]);
            }
            return true;
        }
        k = k + 1;
    }
    proof {
        let seg = s@.subrange(lo as int, hi as int);
        assert(!has_visible_char(seg)) by {
            if exists|j: int| 0 <= j < seg.len() && !is_space_char(seg[j]) {
                let j = choose|j: int| 0 <= j < seg.len() && !is_space_char(seg[j]);
                assert(seg[j] == s@[lo + j]);
            }
        }
    }
    false
}

/// Splits a path into its directory part and its leaf entry, dropping
/// whitespace-only segments from the rebuilt directory part.
pub fn split_path(path: String) -> (r: (String, String))
    ensures
        r.0@ == spec_parent_dir(path@),
        r.1@ == spec_leaf(path@),
{
    let s = path.as_str();
    let len = s.unicode_len();
    let mut base = String::new();
    let mut cur_start: usize = 0;
    let mut i: usize = 0;
    proof {
        assert(s@.subrange(0, 0) =~= Seq::<char>::empty());
        lemma_split_nonempty(s@.subrange(0, 0));
    }
    while i < len
        invariant
            0 <= cur_start <= i <= len,
            len == s@.len(),
            spec_split(s@.subrange(0, i as int)).len() >= 1,
            spec_split(s@.subrange(0, i as int)).last() == s@.subrange(
                cur_start as int,
                i as int,
            ),
            base@ == spec_join_base(spec_split(s@.subrange(0, i as int)).drop_last()),
        decreases len - i,
    {
        let c = s.get_char(i);
        proof {
            let prev = s@.subrange(0, i as int);
            let next = s@.subrange(0, i + 1);
            assert(next.drop_last() =~= prev);
            assert(next.last() == s@[i as int]);
            lemma_split_nonempty(next);
        }
        if c == '/' {
            proof {
                let prev = s@.subrange(0, i as int);
                let next = s@.subrange(0, i + 1);
                assert(spec_split(next) == spec_split(prev).push(Seq::<char>::empty()));
                assert(spec_split(next).drop_last() =~= spec_split(prev));
            }
            if has_visible(s, cur_start, i) {
                base.append("/");
                base.append(s.substring_char(cur_start, i));
            }
            proof {
                let prev = s@.subrange(0, i as int);
                assert(base@ == spec_join_base(spec_split(prev)));
            }
            cur_start = i + 1;
            proof {
                assert(s@.subrange(cur_start as int, i + 1) =~= Seq::<char>::empty());
            }
        } else {
            proof {
                let prev = s@.subrange(0, i as int);
                let next = s@.subrange(0, i + 1);
                let rest = spec_split(prev);
                assert(spec_split(next) == rest.update(rest.len() - 1, rest.last().push(s@[i as int])));
                assert(spec_split(next).drop_last() =~= rest.drop_last());
                assert(spec_split(next).last() == rest.last().push(s@[i as int]));
                assert(s@.subrange(cur_start as int, i as int).push(s@[i as int]) =~= s@.subrange(
                    cur_start as int,
                    i + 1,
                ));
            }
        }
        i = i + 1;
    }
    proof {
        assert(s@.subrange(0, len as int) =~= s@);
    }
    let leaf = s.substring_char(cur_start, len).to_owned();
    (base, leaf)
}

/// A character rand's alphanumeric distribution can produce: an ASCII digit
/// or letter.
pub open spec fn is_ascii_alphanumeric_char(c: char) -> bool {
    (48 <= c as u32 <= 57) || (65 <= c as u32 <= 90) || (97 <= c as u32 <= 122)
}

/// Relies on rand's `Alphanumeric` distribution, sampled from `thread_rng`:
/// it yields exactly `len` bytes, each an ASCII letter or digit.
#[verifier::external_body]
fn random_alphanumeric(len: usize) -> (r: String)
    ensures
        r@.len() == len as nat,
        forall|i: int| 0 <= i < r@.len() ==> is_ascii_alphanumeric_char(#[trigger] r@[i]),
{
    rand::thread_rng().sample_iter(&rand::distributions::Alphanumeric).take(len).map(
        char::from,
    ).collect()
}

/// The name of a staged archive: seven random alphanumeric characters
/// followed by the archive suffix.
pub open spec fn is_archive_name(n: Seq<char>) -> bool {
    &&& n.len() == 14
    &&& forall|i: int| 0 <= i < 7 ==> is_ascii_alphanumeric_char(#[trigger] n[i])
    &&& n.subrange(7, 14) == (".tar.gz")@
}

/// The path of the staged archive inside a staging directory.
pub open spec fn spec_tar_path(work_path: Seq<char>, tar_name: Seq<char>) -> Seq<char> {
    work_path + ("/")@ + tar_name
}

/// The listing that checks that the source path exists.
pub open spec fn spec_exists_check_cmd(target_path: Seq<char>) -> Seq<Seq<char>> {
    seq![("ls")@, target_path]
}

/// The archive-creation command, rooted at the parent of the source path so
/// that the archive holds the leaf directory by its own name.
pub open spec fn spec_create_tar_cmd(
    target_path: Seq<char>,
    work_path: Seq<char>,
    tar_name: Seq<char>,
) -> Seq<Seq<char>> {
    seq![
        ("tar")@,
        ("-cf")@,
        spec_tar_path(work_path, tar_name),
        ("-C")@,
        spec_parent_dir(target_path),
        spec_leaf(target_path),
    ]
}

/// The removal of a staged archive.
pub open spec fn spec_delete_tar_cmd(work_path: Seq<char>, tar_name: Seq<char>) -> Seq<Seq<char>> {
    seq![("rm")@, spec_tar_path(work_path, tar_name)]
}

/// Plans the archiving of `target_path` into `work_folder`'s staging
/// directory: a fresh archive name, the source-existence check, the
/// archive-creation command, and the staged archive's removal.
pub fn tar_directory(target_path: String, work_folder: &Folder) -> (r: (
    String,
    Vec<String>,
    Vec<String>,
    Vec<String>,
))
    ensures
        is_archive_name(r.0@),
        r.1.deep_view() == spec_exists_check_cmd(target_path@),
        r.2.deep_view() == spec_create_tar_cmd(target_path@, work_folder.path@, r.0@),
        r.3.deep_view() == spec_delete_tar_cmd(work_folder.path@, r.0@),
{
    let random_name = random_alphanumeric(7);
    let tar_name = random_name.concat(".tar.gz");
    proof {
        reveal_strlit(".tar.gz");
        assert(tar_name@.subrange(7, 14) =~= (".tar.gz")@);
    }

    let mut tar_path = work_folder.path.clone();
    tar_path.append("/");
    tar_path.append(tar_name.as_str());

    let mut tar_source_exists_args: Vec<String> = Vec::new();
    tar_source_exists_args.push(String::from_str("ls"));
    tar_source_exists_args.push(target_path.clone());

    let (parent_dir, leaf) = split_path(target_path.clone());
    let mut create_tar_args: Vec<String> = Vec::new();
    create_tar_args.push(String::from_str("tar"));
    create_tar_args.push(String::from_str("-cf"));
    create_tar_args.push(tar_path.clone());
    create_tar_args.push(String::from_str("-C"));
    create_tar_args.push(parent_dir);
    create_tar_args.push(leaf);

    let mut delete_tar_args: Vec<String> = Vec::new();
    delete_tar_args.push(String::from_str("rm"));
    delete_tar_args.push(tar_path);
    proof {
        assert(tar_source_exists_args.deep_view() =~= spec_exists_check_cmd(target_path@));
        assert(create_tar_args.deep_view() =~= spec_create_tar_cmd(
            target_path@,
            work_folder.path@,
            tar_name@,
        ));
        assert(delete_tar_args.deep_view() =~= spec_delete_tar_cmd(work_folder.path@, tar_name@));
    }
    (tar_name, tar_source_exists_args, create_tar_args, delete_tar_args)
}

/// The listing that verifies the transferred archive landed in the staging
/// directory.
pub open spec fn spec_verify_tar_cmd(work_path: Seq<char>, tar_name: Seq<char>) -> Seq<Seq<char>> {
    seq![("ls")@, spec_tar_path(work_path, tar_name)]
}

/// The recursive, parents-allowed creation of the destination directory.
pub open spec fn spec_mkdir_cmd(target_path: Seq<char>) -> Seq<Seq<char>> {
    seq![("mkdir")@, ("-p")@, target_path]
}

/// The recursive forced removal that purges the destination before
/// extraction, making it an exact replica of the source subtree.
pub open spec fn spec_purge_cmd(target_path: Seq<char>) -> Seq<Seq<char>> {
    seq![("rm")@, ("-rf")@, target_path]
}

/// The extraction of the staged archive into the parent of the destination,
/// mirroring the leaf-relative layout the archive was created with.
pub open spec fn spec_untar_cmd(
    target_path: Seq<char>,
    work_path: Seq<char>,
    tar_name: Seq<char>,
) -> Seq<Seq<char>> {
    seq![
        ("tar")@,
        ("-xf")@,
        spec_tar_path(work_path, tar_name),
        ("-C")@,
        spec_parent_dir(target_path),
    ]
}

/// Plans the unpacking of a staged archive into `target_path`: verify the
/// archive is present, create the destination tree, purge its previous
/// contents, extract, and delete the staged archive.
pub fn untar_directory(target_path: String, work_folder: &Folder, tar_name: String) -> (r: (
    Vec<String>,
    Vec<String>,
    Vec<String>,
    Vec<String>,
    Vec<String>,
))
    ensures
        r.0.deep_view() == spec_verify_tar_cmd(work_folder.path@, tar_name@),
        r.1.deep_view() == spec_mkdir_cmd(target_path@),
        r.2.deep_view() == spec_purge_cmd(target_path@),
        r.3.deep_view() == spec_untar_cmd(target_path@, work_folder.path@, tar_name@),
        r.4.deep_view() == spec_delete_tar_cmd(work_folder.path@, tar_name@),
{
    let mut tar_path = work_folder.path.clone();
    tar_path.append("/");
    tar_path.append(tar_name.as_str());

    let mut verify_tar: Vec<String> = Vec::new();
    verify_tar.push(String::from_str("ls"));
    verify_tar.push(tar_path.clone());

    let mut make_path_to_target_folder: Vec<String> = Vec::new();
    make_path_to_target_folder.push(String::from_str("mkdir"));
    make_path_to_target_folder.push(String::from_str("-p"));
    make_path_to_target_folder.push(target_path.clone());

    let mut delete_target_folder: Vec<String> = Vec::new();
    delete_target_folder.push(String::from_str("rm"));
    delete_target_folder.push(String::from_str("-rf"));
    delete_target_folder.push(target_path.clone());

    let (parent_dir, _leaf) = split_path(target_path.clone());
    let mut untar_folder: Vec<String> = Vec::new();
    untar_folder.push(String::from_str("tar"));
    untar_folder.push(String::from_str("-xf"));
    untar_folder.push(tar_path.clone());
    untar_folder.push(String::from_str("-C"));
    untar_folder.push(parent_dir);

    let mut delete_tar: Vec<String> = Vec::new();
    delete_tar.push(String::from_str("rm"));
    delete_tar.push(tar_path);
    proof {
        assert(verify_tar.deep_view() =~= spec_verify_tar_cmd(work_folder.path@, tar_name@));
        assert(make_path_to_target_folder.deep_view() =~= spec_mkdir_cmd(target_path@));
        assert(delete_target_folder.deep_view() =~= spec_purge_cmd(target_path@));
        assert(untar_folder.deep_view() =~= spec_untar_cmd(
            target_path@,
            work_folder.path@,
            tar_name@,
        ));
        assert(delete_tar.deep_view() =~= spec_delete_tar_cmd(work_folder.path@, tar_name@));
    }
    (verify_tar, make_path_to_target_folder, delete_target_folder, untar_folder, delete_tar)
}

} // verus!
