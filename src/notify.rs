use vstd::prelude::*;
use crate::attempt::Outcome;

verus! {

/// Whether an outcome calls for the failure alert: every outcome but a
/// completed attempt, with or without changes.
pub open spec fn alerts(o: Outcome) -> bool {
    !(o is Success || o is NoChanges)
}

/// Whether the failure alert is to be played after `o`.
pub fn needs_alert(o: &Outcome) -> (r: bool)
    ensures
        r == alerts(*o),
{
    match o {
        Outcome::Success | Outcome::NoChanges => false,
        _ => true,
    }
}

/// The components of a path, as text.
pub open spec fn texts(v: Seq<String>) -> Seq<Seq<char>> {
    v.map_values(|s: String| s@)
}

/// The alert sound's path from the executable's directory `dir`: inside a
/// directory named `debug` it first escapes one level up.
pub open spec fn alert_path_text(dir: Seq<Seq<char>>) -> Seq<Seq<char>> {
    let base = if dir.len() > 0 && dir.last() == "debug"@ {
        dir.push(".."@)
    } else {
        dir
    };
    base + seq!["assets"@, "error.wav"@]
}

/// The components of the alert sound's path, from those of the executable's
/// directory.
pub fn alert_asset_path(dir: &Vec<String>) -> (r: Vec<String>)
    ensures
        texts(r@) == alert_path_text(texts(dir@)),
{
    let mut r: Vec<String> = Vec::new();
    let mut i: usize = 0;
    while i < dir.len()
        invariant
            i <= dir@.len(),
            r@.len() == i,
            forall|k: int| 0 <= k < i ==> #[trigger] r@[k]@ == dir@[k]@,
        decreases dir@.len() - i,
    {
        r.push(dir[i].clone());
        i = i + 1;
    }
    assert(texts(r@) =~= texts(dir@));
    let n = dir.len();
    if n > 0 && dir[n - 1] == String::from_str("debug") {
        r.push(String::from_str(".."));
    }
    r.push(String::from_str("assets"));
    r.push(String::from_str("error.wav"));
    proof {
        let d = texts(dir@);
        let base = if d.len() > 0 && d.last() == "debug"@ {
            d.push(".."@)
        } else {
            d
        };
        assert(texts(r@) =~= base + seq!["assets"@, "error.wav"@]);
    }
    r
}

} // verus!
