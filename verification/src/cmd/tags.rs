use vstd::prelude::*;
use vstd::string::StringExecFns;

verus! {

/// What is asked of the protection of a tag.
#[derive(Clone, Copy, Debug, PartialEq, Eq, Structural)]
pub enum TagsCmd {
    Unprotect,
    Protect,
}

/// What the command does once it knows which tags are protected.
#[derive(Clone, Copy, Debug, PartialEq, Eq, Structural)]
pub enum TagsStep {
    /// The tag is not protected: there is nothing to remove.
    NotFound,
    /// Remove the protection of the tag.
    Unprotect,
    /// The tag is protected already: there is nothing to add.
    AlreadyProtected,
    /// Protect the tag.
    Protect,
}

/// The step taken on `tag` while the tags `protected` are protected, for
/// what is `asked` of it.
pub open spec fn step_for(asked: TagsCmd, protected: Seq<Seq<char>>, tag: Seq<char>) -> TagsStep {
    match asked {
        TagsCmd::Unprotect => if protected.contains(tag) {
            TagsStep::Unprotect
        } else {
            TagsStep::NotFound
        },
        TagsCmd::Protect => if protected.contains(tag) {
            TagsStep::AlreadyProtected
        } else {
            TagsStep::Protect
        },
    }
}

/// What is reported of `tag` on `project` once `step` is done.
pub open spec fn report_text(step: TagsStep, tag: Seq<char>, project: Seq<char>) -> Seq<char> {
    "tag '"@ + tag + match step {
        TagsStep::NotFound => "' protection not found on project "@,
        TagsStep::Unprotect => "' protection has been removed on project "@,
        TagsStep::AlreadyProtected => "' protection already added on project "@,
        TagsStep::Protect => "' is protected on project "@,
    } + project
}

/// Decides what to do about `tag`: its protection is removed only where it
/// is among the protected tags, and added only where it is not.
pub fn cmd(asked: TagsCmd, protected: &Vec<String>, tag: &str) -> (step: TagsStep)
    ensures
        step == step_for(asked, protected.deep_view(), tag@),
{
    let wanted = tag.to_owned();
    let mut found = false;
    let mut i: usize = 0;
    while i < protected.len() && !found
        invariant
            i <= protected.len(),
            wanted@ == tag@,
            found ==> protected.deep_view().contains(tag@),
            !found ==> forall|j: int| 0 <= j < i ==> protected.deep_view()[j] != tag@,
        decreases protected.len() - i + if found { 0int } else { 1int },
    {
        assert(protected.deep_view()[i as int] == protected[i as int]@);
        if protected[i] == wanted {
            found = true;
        } else {
            i += 1;
        }
    }
    match asked {
        TagsCmd::Unprotect => if found {
            TagsStep::Unprotect
        } else {
            TagsStep::NotFound
        },
        TagsCmd::Protect => if found {
            TagsStep::AlreadyProtected
        } else {
            TagsStep::Protect
        },
    }
}

/// Words the report of `step` for `tag` on `project`.
pub fn report(step: TagsStep, tag: &str, project: &str) -> (text: String)
    ensures
        text@ == report_text(step, tag@, project@),
{
    let mut text: String = String::from_str("tag '");
    text.append(tag);
    text.append(
        match step {
            TagsStep::NotFound => "' protection not found on project ",
            TagsStep::Unprotect => "' protection has been removed on project ",
            TagsStep::AlreadyProtected => "' protection already added on project ",
            TagsStep::Protect => "' is protected on project ",
        },
    );
    text.append(project);
    text
}

/// The address of the repository settings of the project at `web_url`.
pub fn settings_url(web_url: &str) -> (url: String)
    ensures
        url@ == web_url@ + "/-/settings/repository"@,
{
    let mut url: String = String::from_str(web_url);
    url.append("/-/settings/repository");
    url
}

} // verus!
