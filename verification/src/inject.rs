//! How the build script is put into a project for a build, and taken out
//! again afterwards.

use crate::cli::InjectAction;
use crate::project::{join_path, joined, opt_view};
use crate::text::push_str;
use vstd::prelude::*;

verus! {

/// Where the build script is kept for good.
pub const PERSISTENT_BUILD_SCRIPT_ROOT: &'static str = "Assets/Plugins/Ucom/Editor";

/// The stem of the directories the build script is put in for one build.
pub const AUTO_BUILD_SCRIPT_ROOT: &'static str = "Assets/Ucom";

/// A character of a hyphenated UUID's hexadecimal digits.
pub open spec fn is_lower_hex(c: char) -> bool {
    ('0' <= c && c <= '9') || ('a' <= c && c <= 'f')
}

/// The text is a UUID in hyphenated form: 36 characters, hyphens after the
/// 8th, 12th, 16th and 20th digit, lowercase hexadecimal digits elsewhere.
pub open spec fn is_hyphenated_uuid(s: Seq<char>) -> bool {
    &&& s.len() == 36
    &&& forall|i: int|
        0 <= i < 36 ==> if i == 8 || i == 13 || i == 18 || i == 23 {
            s[i] == '-'
        } else {
            is_lower_hex(#[trigger] s[i])
        }
}

/// A new random UUID (version 4) in its hyphenated text form, as
/// `uuid::Uuid::new_v4().to_string()` gives it. Which UUID comes is left
/// open: only its form is stated.
#[verifier::external_body]
fn new_uuid_text() -> (r: String)
    ensures
        is_hyphenated_uuid(r@),
{
    uuid::Uuid::new_v4().to_string()
}

/// What to do with the build script around a build: the directory,
/// relative to the project, to add the script to before the build, and the
/// directory to remove after it.
pub struct InjectionPlan {
    pub script_dir: Option<String>,
    pub cleanup_dir: Option<String>,
}

/// The plan as plain values.
pub struct PlanSpec {
    pub script_dir: Option<Seq<char>>,
    pub cleanup_dir: Option<Seq<char>>,
}

/// The plan as plain values.
pub open spec fn plan_view(p: InjectionPlan) -> PlanSpec {
    PlanSpec { script_dir: opt_view(p.script_dir), cleanup_dir: opt_view(p.cleanup_dir) }
}

/// The directory of one build's script, named with the given UUID.
pub open spec fn auto_dir(uuid: Seq<char>) -> Seq<char> {
    "Assets/Ucom"@ + "-"@ + uuid
}

/// The plan for an injection action: nothing when the script is already in
/// the project or injection is off; a script for good for `Persistent`; a
/// script in a directory of its own, removed after the build, for `Auto`.
pub open spec fn plan_for(inject: InjectAction, script_exists: bool, uuid: Seq<char>, sep: char) -> PlanSpec {
    match inject {
        InjectAction::Off => PlanSpec { script_dir: None, cleanup_dir: None },
        _ => if script_exists {
            PlanSpec { script_dir: None, cleanup_dir: None }
        } else {
            match inject {
                InjectAction::Auto => PlanSpec {
                    script_dir: Some(joined(auto_dir(uuid), "Editor"@, sep)),
                    cleanup_dir: Some(auto_dir(uuid)),
                },
                _ => PlanSpec { script_dir: Some("Assets/Plugins/Ucom/Editor"@), cleanup_dir: None },
            }
        },
    }
}

/// The plan for an injection action, with the given UUID naming the
/// directory of an automatic injection.
pub fn plan_with_uuid(inject: InjectAction, persistent_script_exists: bool, uuid: &str, sep: char) -> (r:
    InjectionPlan)
    ensures
        plan_view(r) == plan_for(inject, persistent_script_exists, uuid@, sep),
{
    match inject {
        InjectAction::Off => InjectionPlan { script_dir: None, cleanup_dir: None },
        _ => {
            if persistent_script_exists {
                InjectionPlan { script_dir: None, cleanup_dir: None }
            } else {
                match inject {
                    InjectAction::Auto => {
                        let mut dir = String::new();
                        push_str(&mut dir, AUTO_BUILD_SCRIPT_ROOT);
                        push_str(&mut dir, "-");
                        push_str(&mut dir, uuid);
                        let script = join_path(dir.as_str(), "Editor", sep);
                        InjectionPlan { script_dir: Some(script), cleanup_dir: Some(dir) }
                    },
                    _ => InjectionPlan {
                        script_dir: Some(PERSISTENT_BUILD_SCRIPT_ROOT.to_string()),
                        cleanup_dir: None,
                    },
                }
            }
        },
    }
}

/// Creates the plan for putting the build script into the project around a
/// build. An automatic injection uses a directory named with a new random
/// UUID, so that builds do not meet.
pub fn csharp_build_script_injection_hooks(inject: InjectAction, persistent_script_exists: bool, sep: char) -> (r:
    InjectionPlan)
    ensures
        exists|u: Seq<char>|
            is_hyphenated_uuid(u) && plan_view(r) == #[trigger] plan_for(
                inject,
                persistent_script_exists,
                u,
                sep,
            ),
{
    if inject == InjectAction::Auto && !persistent_script_exists {
        let uuid = new_uuid_text();
        let r = plan_with_uuid(inject, persistent_script_exists, uuid.as_str(), sep);
        assert(plan_view(r) == plan_for(inject, persistent_script_exists, uuid@, sep));
        r
    } else {
        let ghost u = Seq::new(36, |i: int| if i == 8 || i == 13 || i == 18 || i == 23 { '-' } else { '0' });
        let r = plan_with_uuid(inject, persistent_script_exists, "", sep);
        proof {
            assert(is_hyphenated_uuid(u));
            assert(plan_for(inject, persistent_script_exists, u, sep) == plan_for(
                inject,
                persistent_script_exists,
                ""@,
                sep,
            ));
        }
        r
    }
}

} // verus!
