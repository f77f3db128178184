use vstd::prelude::*;
use crate::error::DumpError;

verus! {

/// The name that sanitize_filename makes of `name`.
pub uninterp spec fn sanitized_name(name: Seq<char>) -> Seq<char>;

/// Relies on sanitize_filename::sanitize_with_options: it removes from a name
/// the characters that a file name may not hold, with the options fixed so
/// that the result depends on the name alone.
#[verifier::external_body]
fn sanitize(name: &str) -> (r: String)
    ensures
        r@ == sanitized_name(name@),
{
    let options = sanitize_filename::Options { windows: false, truncate: true, replacement: "" };
    sanitize_filename::sanitize_with_options(name, options)
}

pub open spec fn is_separator(c: char) -> bool {
    c == '/' || c == '\\'
}

/// A name that stays inside the directory it is joined to: not empty, not
/// `.` or `..`, and free of path separators.
pub open spec fn is_safe_name(s: Seq<char>) -> bool {
    &&& s.len() > 0
    &&& s != seq!['.']
    &&& s != seq!['.', '.']
    &&& forall|i: int| 0 <= i < s.len() ==> !is_separator(#[trigger] s[i])
}

/// The accepted destination name for an uploaded part declared as `raw`,
/// which sanitizes to `sanitized`.
pub open spec fn upload_name(raw: Seq<char>, sanitized: Seq<char>) -> Result<Seq<char>, DumpError> {
    if is_safe_name(raw) && is_safe_name(sanitized) {
        Ok(sanitized)
    } else {
        Err(DumpError::InvalidInput)
    }
}

/// The file name of the artifact of dump `uid`.
pub open spec fn artifact_name(uid: Seq<char>) -> Seq<char> {
    uid + ".dump"@
}

/// Whether `s` is a safe name in the sense of [`is_safe_name`].
pub fn safe_name(s: &str) -> (r: bool)
    ensures
        r == is_safe_name(s@),
{
    let n = s.unicode_len();
    if n == 0 {
        return false;
    }
    let mut i: usize = 0;
    while i < n
        invariant
            n == s@.len(),
            i <= n,
            forall|j: int| 0 <= j < i ==> !is_separator(#[trigger] s@[j]),
        decreases n - i,
    {
        let c = s.get_char(i);
        if c == '/' || c == '\\' {
            return false;
        }
        i += 1;
    }
    if n <= 2 {
        let first = s.get_char(0);
        let last = s.get_char(n - 1);
        if first == '.' && last == '.' {
            assert(s@ =~= seq!['.'] || s@ =~= seq!['.', '.']);
            return false;
        }
        assert(s@ != seq!['.']) by {
            if s@ == seq!['.'] {
                assert(s@[0] == '.');
            }
        }
        assert(s@ != seq!['.', '.']) by {
            if s@ == seq!['.', '.'] {
                assert(s@[0] == '.' && s@[1] == '.');
            }
        }
    }
    true
}

/// Accepts the declared file name `raw` of an uploaded part, already
/// sanitized into `sanitized`, as a destination name; rejects with
/// `InvalidInput` a name that is empty, is `.` or `..`, or holds a path
/// separator, before or after sanitizing.
pub fn accept_upload_name(raw: &str, sanitized: String) -> (r: Result<String, DumpError>)
    ensures
        match upload_name(raw@, sanitized@) {
            Ok(name) => r matches Ok(n) && n@ == name,
            Err(e) => r == Err::<String, DumpError>(e),
        },
{
    if safe_name(raw) && safe_name(sanitized.as_str()) {
        Ok(sanitized)
    } else {
        Err(DumpError::InvalidInput)
    }
}

/// Appends `/` and `name` to `dir`.
fn join(dir: &str, name: &str) -> (r: String)
    ensures
        r@ == dir@ + "/"@ + name@,
{
    let mut path = String::from_str(dir);
    path.append("/");
    path.append(name);
    path
}

/// The path under `scratch_dir` where an uploaded part declared as `raw` is
/// written: the sanitized name joined to the directory, or `InvalidInput`
/// when the name is unsafe.
pub fn upload_destination(scratch_dir: &str, raw: &str) -> (r: Result<String, DumpError>)
    ensures
        match upload_name(raw@, sanitized_name(raw@)) {
            Ok(name) => r matches Ok(path) && path@ == scratch_dir@ + "/"@ + name,
            Err(e) => r == Err::<String, DumpError>(e),
        },
{
    let sanitized = sanitize(raw);
    match accept_upload_name(raw, sanitized) {
        Ok(name) => Ok(join(scratch_dir, name.as_str())),
        Err(e) => Err(e),
    }
}

/// The path of the artifact of dump `uid` under `dumps_folder`; `NotFound`
/// when `uid` could not name a file there.
pub fn artifact_path(dumps_folder: &str, uid: &str) -> (r: Result<String, DumpError>)
    ensures
        is_safe_name(uid@) ==> (r matches Ok(path) && path@ == dumps_folder@ + "/"@
            + artifact_name(uid@)),
        !is_safe_name(uid@) ==> r == Err::<String, DumpError>(DumpError::NotFound),
{
    if !safe_name(uid) {
        return Err(DumpError::NotFound);
    }
    let mut file = String::from_str(uid);
    file.append(".dump");
    let path = join(dumps_folder, file.as_str());
    assert(path@ =~= dumps_folder@ + "/"@ + artifact_name(uid@));
    Ok(path)
}

/// A declared name that holds a path separator, such as `../../etc/passwd`,
/// is rejected with `InvalidInput` whatever it sanitizes to.
pub proof fn lemma_separator_rejected(raw: Seq<char>, sanitized: Seq<char>, i: int)
    requires
        0 <= i < raw.len(),
        is_separator(raw[i]),
    ensures
        upload_name(raw, sanitized) == Err::<Seq<char>, DumpError>(DumpError::InvalidInput),
{
    assert(!is_safe_name(raw));
}

} // verus!
