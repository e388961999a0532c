//! The `--healthcheck` mode: which registry it checks.
use crate::args::validation::is_absolute_path;
use crate::args::DEFAULT_SOURCE_REGISTRY_PATH;
use crate::text::{chars_of, concat2, str_eq};
use vstd::prelude::*;

verus! {

/// The healthcheck is asked for when `--healthcheck` follows the program name.
pub open spec fn healthcheck_flag_present(raw_args: Seq<Seq<char>>) -> bool {
    exists|i: int| 1 <= i < raw_args.len() && raw_args[i] == "--healthcheck"@
}

pub fn healthcheck_requested(raw_args: &[String]) -> (r: bool)
    ensures
        r == healthcheck_flag_present(raw_args@.map_values(|s: String| s@)),
{
    let ghost views = raw_args@.map_values(|s: String| s@);
    let mut i: usize = 1;
    while i < raw_args.len()
        invariant
            1 <= i,
            views == raw_args@.map_values(|s: String| s@),
            forall|k: int| 1 <= k < i && k < raw_args.len() ==> views[k] != "--healthcheck"@,
        decreases raw_args.len() - i,
    {
        if str_eq(raw_args[i].as_str(), "--healthcheck") {
            assert(views[i as int] == "--healthcheck"@);
            return true;
        }
        i = i + 1;
    }
    false
}

/// The registry the healthcheck reads, from argument `i` on, given the one
/// chosen so far: `--healthcheck` is skipped, `--source-registry` takes an
/// absolute path, anything else is refused.
pub open spec fn healthcheck_registry_from(
    raw_args: Seq<Seq<char>>,
    i: int,
    chosen: Seq<char>,
) -> Result<Seq<char>, Seq<char>>
    decreases raw_args.len() - i,
{
    if i < 0 || i >= raw_args.len() {
        Ok(chosen)
    } else if raw_args[i] == "--healthcheck"@ {
        healthcheck_registry_from(raw_args, i + 1, chosen)
    } else if raw_args[i] == "--source-registry"@ {
        if i + 1 >= raw_args.len() || !is_absolute_path(raw_args[i + 1]) {
            Err("--source-registry requires an absolute path"@)
        } else {
            healthcheck_registry_from(raw_args, i + 2, raw_args[i + 1])
        }
    } else {
        Err("unsupported healthcheck argument: "@ + raw_args[i])
    }
}

/// The registry the healthcheck reads: the default unless the arguments
/// after the program name choose another.
pub open spec fn healthcheck_registry(raw_args: Seq<Seq<char>>) -> Result<Seq<char>, Seq<char>> {
    healthcheck_registry_from(raw_args, 1, DEFAULT_SOURCE_REGISTRY_PATH@)
}

pub fn healthcheck_source_registry(raw_args: &[String]) -> (r: Result<String, String>)
    ensures
        match healthcheck_registry(raw_args@.map_values(|s: String| s@)) {
            Ok(p) => r matches Ok(q) && q@ == p,
            Err(e) => r matches Err(m) && m@ == e,
        },
{
    let ghost views = raw_args@.map_values(|s: String| s@);
    let mut source_registry = DEFAULT_SOURCE_REGISTRY_PATH.to_owned();
    let mut index: usize = 1;
    while index < raw_args.len()
        invariant
            1 <= index,
            views == raw_args@.map_values(|s: String| s@),
            healthcheck_registry(views) == healthcheck_registry_from(
                views,
                index as int,
                source_registry@,
            ),
        decreases raw_args.len() - index,
    {
        let arg = raw_args[index].as_str();
        if str_eq(arg, "--healthcheck") {
            index = index + 1;
        } else if str_eq(arg, "--source-registry") {
            if index + 1 >= raw_args.len() {
                return Err("--source-registry requires an absolute path".to_owned());
            }
            let value = raw_args[index + 1].as_str();
            let cs = chars_of(value);
            if !(cs.len() > 0 && cs[0] == '/') {
                return Err("--source-registry requires an absolute path".to_owned());
            }
            source_registry = value.to_owned();
            index = index + 2;
        } else {
            return Err(concat2("unsupported healthcheck argument: ", arg));
        }
    }
    Ok(source_registry)
}

} // verus!
