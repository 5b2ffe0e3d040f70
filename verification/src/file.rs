//! Where the logs of a task live: one directory per task id, below the
//! directory `file` of the service's working directory.

use crate::error::{AppError, AppErrorView};
use vstd::prelude::*;
use vstd::string::*;

verus! {

/// The decimal digit for a number below ten.
pub open spec fn digit_char(d: int) -> char {
    if d == 0 {
        '0'
    } else if d == 1 {
        '1'
    } else if d == 2 {
        '2'
    } else if d == 3 {
        '3'
    } else if d == 4 {
        '4'
    } else if d == 5 {
        '5'
    } else if d == 6 {
        '6'
    } else if d == 7 {
        '7'
    } else if d == 8 {
        '8'
    } else {
        '9'
    }
}

/// A number written in decimal, without leading zeros.
pub open spec fn decimal(n: nat) -> Seq<char>
    decreases n,
{
    if n < 10 {
        seq![digit_char(n as int)]
    } else {
        decimal(n / 10).push(digit_char((n % 10) as int))
    }
}

/// A path with one more component: the separator goes between the two
/// unless the path is empty or ends with one already.
pub open spec fn join_path(base: Seq<char>, name: Seq<char>) -> Seq<char> {
    if base.len() == 0 || base.last() == '/' {
        base + name
    } else {
        base + seq!['/'] + name
    }
}

/// The directory that holds the logs of the task `id`.
pub open spec fn task_dir(root: Seq<char>, id: u64) -> Seq<char> {
    join_path(join_path(root, "file"@), decimal(id as nat))
}

/// Whether `name` names a file directly inside a directory: it is not
/// empty, has no separator in it, and is neither `.` nor `..`.
pub open spec fn plain_name(name: Seq<char>) -> bool {
    &&& name.len() > 0
    &&& !name.contains('/')
    &&& name != seq!['.']
    &&& name != seq!['.', '.']
}

/// The text of one decimal digit.
fn digit_text(d: u64) -> (text: &'static str)
    requires
        d < 10,
    ensures
        text@ == seq![digit_char(d as int)],
{
    proof {
        reveal_strlit("0");
        reveal_strlit("1");
        reveal_strlit("2");
        reveal_strlit("3");
        reveal_strlit("4");
        reveal_strlit("5");
        reveal_strlit("6");
        reveal_strlit("7");
        reveal_strlit("8");
        reveal_strlit("9");
    }
    if d == 0 {
        "0"
    } else if d == 1 {
        "1"
    } else if d == 2 {
        "2"
    } else if d == 3 {
        "3"
    } else if d == 4 {
        "4"
    } else if d == 5 {
        "5"
    } else if d == 6 {
        "6"
    } else if d == 7 {
        "7"
    } else if d == 8 {
        "8"
    } else {
        "9"
    }
}

/// Appends `n` in decimal to `out`.
fn append_decimal(out: &mut String, n: u64)
    ensures
        final(out)@ == old(out)@ + decimal(n as nat),
    decreases n,
{
    if n >= 10 {
        append_decimal(out, n / 10);
    }
    out.append(digit_text(n % 10));
}

/// `n` written in decimal.
pub fn decimal_text(n: u64) -> (text: String)
    ensures
        text@ == decimal(n as nat),
{
    let mut text = String::new();
    append_decimal(&mut text, n);
    text
}

/// `base` with the component `name` added.
pub fn join(base: &str, name: &str) -> (path: String)
    ensures
        path@ == join_path(base@, name@),
{
    let len = base.unicode_len();
    let mut path = String::from_str(base);
    if len > 0 && base.get_char(len - 1) != '/' {
        proof {
            reveal_strlit("/");
        }
        path.append("/");
    }
    path.append(name);
    path
}

/// The directory that holds the logs of the task `id`, below the working
/// directory `root`: `<root>/file/<id>`.
pub fn get_task_file_path(root: &str, id: u64) -> (path: String)
    ensures
        path@ == task_dir(root@, id),
{
    let files = join(root, "file");
    let name = decimal_text(id);
    join(files.as_str(), name.as_str())
}

/// Whether `name` names a file directly inside a directory.
pub fn is_plain_name(name: &str) -> (ok: bool)
    ensures
        ok == plain_name(name@),
{
    let len = name.unicode_len();
    if len == 0 {
        return false;
    }
    let mut dots_only = true;
    let mut i: usize = 0;
    while i < len
        invariant
            len == name@.len(),
            i <= len,
            forall|k: int| 0 <= k < i ==> name@[k] != '/',
            dots_only <==> forall|k: int| 0 <= k < i ==> name@[k] == '.',
        decreases len - i,
    {
        let c = name.get_char(i);
        if c == '/' {
            return false;
        }
        if c != '.' {
            dots_only = false;
        }
        i = i + 1;
    }
    if dots_only && len <= 2 {
        assert(name@ =~= seq!['.'] || name@ =~= seq!['.', '.']);
        return false;
    }
    true
}

/// The path of the file `name` in the log directory of the task `id`.
///
/// A name that would lead out of that directory is refused.
pub fn log_file_path(root: &str, id: u64, name: &str) -> (r: Result<String, AppError>)
    ensures
        match r {
            Ok(path) => plain_name(name@) && path@ == join_path(task_dir(root@, id), name@),
            Err(e) => !plain_name(name@) && e@ == AppErrorView::InvalidQueryParameter("name"@),
        },
{
    if !is_plain_name(name) {
        return Err(AppError::invalid("name"));
    }
    let dir = get_task_file_path(root, id);
    Ok(join(dir.as_str(), name))
}

} // verus!
