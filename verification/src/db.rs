//! Start-up of the stores: what a failed start says, and which migrations a start applied.
use vstd::prelude::*;
use crate::text::concat;

verus! {

/// The versions of `after` that are not in `before`, in the order of `after`.
pub open spec fn new_versions(before: Seq<i64>, after: Seq<i64>) -> Seq<i64>
    decreases after.len(),
{
    if after.len() == 0 {
        Seq::empty()
    } else {
        let prev = new_versions(before, after.drop_last());
        if before.contains(after.last()) {
            prev
        } else {
            prev.push(after.last())
        }
    }
}

/// The migrations a start applied, from the applied versions before and after running them.
pub fn newly_applied(before: &Vec<i64>, after: &Vec<i64>) -> (r: Vec<i64>)
    ensures
        r@ == new_versions(before@, after@),
{
    let mut r: Vec<i64> = Vec::new();
    let mut i: usize = 0;
    while i < after.len()
        invariant
            i <= after@.len(),
            r@ == new_versions(before@, after@.take(i as int)),
        decreases after.len() - i,
    {
        let v = after[i];
        proof {
            assert(after@.take(i + 1).drop_last() == after@.take(i as int));
            assert(after@.take(i + 1).last() == v);
        }
        let mut seen = false;
        let mut k: usize = 0;
        while k < before.len()
            invariant
                k <= before@.len(),
                seen == (exists|j: int| 0 <= j < k && before@[j] == v),
            decreases before.len() - k,
        {
            if before[k] == v {
                seen = true;
            }
            k += 1;
        }
        proof {
            if seen {
                let j = choose|j: int| 0 <= j < before@.len() && before@[j] == v;
                assert(before@.contains(v));
            } else {
                assert(!before@.contains(v));
            }
        }
        if !seen {
            r.push(v);
        }
        i += 1;
    }
    assert(after@.take(after@.len() as int) == after@);
    r
}

pub open spec fn failure_line(prefix: Seq<char>, reason: Option<Seq<char>>) -> Seq<Seq<char>> {
    match reason {
        Some(e) => seq![prefix + e],
        None => Seq::empty(),
    }
}

pub open spec fn joined_failures(lines: Seq<Seq<char>>) -> Seq<char> {
    if lines.len() == 2 {
        lines[0] + "; "@ + lines[1]
    } else {
        lines[0]
    }
}

/// Why the stores could not start, from the database's and the blob store's failures (in that
/// order, joined by `; `), or `None` when both started. The cache is not among them: without
/// it the service runs in a degraded mode.
pub fn startup_failure(postgres: Option<&str>, blob: Option<&str>) -> (r: Option<String>)
    ensures
        match r {
            None => postgres is None && blob is None,
            Some(m) => {
                let lines = failure_line("[postgres] 连接失败: "@, match postgres {
                    Some(e) => Some(e@),
                    None => None,
                }) + failure_line("[blob] 配置失败: "@, match blob {
                    Some(e) => Some(e@),
                    None => None,
                });
                lines.len() > 0 && m@ == joined_failures(lines)
            },
        },
{
    match (postgres, blob) {
        (None, None) => None,
        (Some(p), None) => {
            let r = concat("[postgres] 连接失败: ", p);
            proof {
                let lines = seq![("[postgres] 连接失败: "@ + p@)] + Seq::<Seq<char>>::empty();
                assert(lines =~= seq![("[postgres] 连接失败: "@ + p@)]);
            }
            Some(r)
        },
        (None, Some(b)) => {
            let r = concat("[blob] 配置失败: ", b);
            proof {
                let lines = Seq::<Seq<char>>::empty() + seq![("[blob] 配置失败: "@ + b@)];
                assert(lines =~= seq![("[blob] 配置失败: "@ + b@)]);
            }
            Some(r)
        },
        (Some(p), Some(b)) => {
            let a = concat("[postgres] 连接失败: ", p);
            let c = concat(a.as_str(), "; ");
            let d = concat(c.as_str(), "[blob] 配置失败: ");
            let r = concat(d.as_str(), b);
            proof {
                let lines = seq![("[postgres] 连接失败: "@ + p@)] + seq![("[blob] 配置失败: "@ + b@)];
                assert(lines[0] == "[postgres] 连接失败: "@ + p@);
                assert(lines[1] == "[blob] 配置失败: "@ + b@);
                assert(r@ =~= joined_failures(lines));
            }
            Some(r)
        },
    }
}

} // verus!
