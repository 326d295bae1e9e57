//! What is done with each tag of a font file when the fonts of a player are
//! set up.

use vstd::prelude::*;

verus! {

/// A tag of a font file, as far as setting up fonts looks at it.
#[derive(Debug)]
pub enum FontTag {
    /// A font of the first format.
    DefineFont1,
    /// A font of the second or third format, with its name.
    DefineFont2 { name: String },
    /// A font of the fourth format, with its name, its weight and the font
    /// file that it embeds, if it embeds one.
    DefineFont4 { name: String, is_bold: bool, data: Option<Vec<u8>> },
    /// Any other tag.
    Other,
}

/// What is done with a tag of a font file.
#[derive(Debug)]
pub enum FontAction {
    /// The tag's format is not supported: a warning says so.
    WarnUnsupported,
    /// The tag is registered as a device font under its name.
    RegisterTag { name: String },
    /// The embedded font file is registered as a device font.
    RegisterFile { name: String, is_bold: bool, is_italic: bool, data: Vec<u8>, index: u32 },
    /// The tag embeds no font file: a warning names the font.
    WarnNoData { name: String },
    /// Nothing is done.
    Skip,
}

/// What is done with `tag`. An embedded font file is registered with its
/// first face, and as italic exactly where it is bold.
pub open spec fn action_for(tag: FontTag) -> FontAction {
    match tag {
        FontTag::DefineFont1 => FontAction::WarnUnsupported,
        FontTag::DefineFont2 { name } => FontAction::RegisterTag { name },
        FontTag::DefineFont4 { name, is_bold, data: Some(data) } => FontAction::RegisterFile {
            name,
            is_bold,
            is_italic: is_bold,
            data,
            index: 0,
        },
        FontTag::DefineFont4 { name, is_bold, data: None } => FontAction::WarnNoData { name },
        FontTag::Other => FontAction::Skip,
    }
}

/// What is done with `tag`.
pub fn font_action(tag: FontTag) -> (action: FontAction)
    ensures
        action == action_for(tag),
{
    match tag {
        FontTag::DefineFont1 => FontAction::WarnUnsupported,
        FontTag::DefineFont2 { name } => FontAction::RegisterTag { name },
        FontTag::DefineFont4 { name, is_bold, data } => match data {
            Some(data) => FontAction::RegisterFile {
                name,
                is_bold,
                is_italic: is_bold,
                data,
                index: 0,
            },
            None => FontAction::WarnNoData { name },
        },
        FontTag::Other => FontAction::Skip,
    }
}

/// What is done with the tags of one font file, tag by tag.
pub open spec fn actions_for(tags: Seq<FontTag>) -> Seq<FontAction> {
    tags.map_values(|tag: FontTag| action_for(tag))
}

/// What is done with the tags of one font file, tag by tag and in their
/// order.
pub fn font_actions(tags: Vec<FontTag>) -> (actions: Vec<FontAction>)
    ensures
        actions@ == actions_for(tags@),
{
    let ghost all = tags@;
    let mut rest = tags;
    let mut reversed: Vec<FontAction> = Vec::new();
    while rest.len() > 0
        invariant
            rest@.len() <= all.len(),
            rest@ == all.subrange(0, rest@.len() as int),
            reversed@.len() == all.len() - rest@.len(),
            forall|i: int|
                0 <= i < reversed@.len() ==> #[trigger] reversed@[i] == action_for(
                    all[all.len() - 1 - i],
                ),
        decreases rest@.len(),
    {
        let ghost before = rest@;
        match rest.pop() {
            Some(tag) => {
                assert(tag == all[before.len() - 1]);
                reversed.push(font_action(tag));
            },
            None => {},
        }
    }
    let mut actions: Vec<FontAction> = Vec::new();
    while reversed.len() > 0
        invariant
            reversed@.len() + actions@.len() == all.len(),
            forall|i: int|
                0 <= i < reversed@.len() ==> #[trigger] reversed@[i] == action_for(
                    all[all.len() - 1 - i],
                ),
            forall|i: int| 0 <= i < actions@.len() ==> #[trigger] actions@[i] == action_for(all[i]),
        decreases reversed@.len(),
    {
        match reversed.pop() {
            Some(action) => {
                actions.push(action);
            },
            None => {},
        }
    }
    assert(actions@ =~= actions_for(all));
    actions
}

} // verus!
