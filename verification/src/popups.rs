use vstd::prelude::*;
use vstd::string::StringExecFns;

use crate::editor_core::session::{target_semantics, EditorEntry, EditorSession};
use crate::scene_browser::SceneBrowser;

verus! {

/// The mark in front of a list row: `>` on the selected one.
pub open spec fn selector(selected: bool) -> Seq<char> {
    if selected {
        ">"@
    } else {
        " "@
    }
}

/// How the objects list names an entry's visibility; entries without one
/// exist only while the world runs.
pub open spec fn visibility_word(visible: Option<bool>) -> Seq<char> {
    match visible {
        Some(true) => "visible"@,
        Some(false) => "hidden"@,
        None => "runtime"@,
    }
}

/// One row of the objects list.
pub open spec fn object_row(
    selected: bool,
    label: Seq<char>,
    visible: Option<bool>,
    inspected: bool,
) -> Seq<char> {
    selector(selected) + " "@ + label + "  ("@ + visibility_word(visible) + ")"@ + if inspected {
        " [inspected]"@
    } else {
        ""@
    }
}

/// The header of the objects list.
pub open spec fn objects_header() -> Seq<Seq<char>> {
    seq!["Objects"@, "Up/Down select | Enter inspect | Esc close"@, ""@]
}

/// The row of entry `index` of the objects list, named by `labels`.
pub open spec fn object_row_at<T>(
    entries: Seq<EditorEntry<T>>,
    labels: Seq<Seq<char>>,
    selected_entry: usize,
    inspected: Option<T>,
    index: int,
) -> Seq<char> {
    object_row(
        index == selected_entry,
        labels[index],
        entries[index].visible,
        inspected == Some(entries[index].target),
    )
}

/// The views of a list of texts.
pub open spec fn texts_view(texts: Seq<String>) -> Seq<Seq<char>> {
    texts.map_values(|text: String| text@)
}

/// Adding a text to a list adds its view to the list's view.
proof fn lemma_texts_view_push(texts: Seq<String>, text: String)
    ensures
        texts_view(texts.push(text)) == texts_view(texts).push(text@),
{
    assert(texts_view(texts.push(text)) =~= texts_view(texts).push(text@));
}

fn push_text(text: &mut String, piece: &str)
    ensures
        final(text)@ == old(text)@ + piece@,
{
    text.append(piece);
}

/// The objects list of a session while its panel is open: a header, then
/// one row per entry with its label, visibility, the selection mark and
/// whether it is the inspected target. `labels` names the entries in order.
pub fn objects_popup_lines<T: Clone + PartialEq>(
    session: &EditorSession<T>,
    labels: &[String],
) -> (lines: Option<Vec<String>>)
    requires
        target_semantics::<T>(),
        labels@.len() == session@.entries.len(),
    ensures
        !session@.objects_panel_open ==> lines is None,
        session@.objects_panel_open ==> lines is Some && texts_view(lines->0@) == objects_header()
            + Seq::new(
            session@.entries.len(),
            |index: int|
                object_row_at(
                    session@.entries,
                    texts_view(labels@),
                    session@.selected_entry,
                    session@.inspected_target,
                    index,
                ),
        ),
{
    if !session.objects_panel_open() {
        return None;
    }
    let entries = session.entries();
    let selected = session.selected_entry();
    let inspected = session.inspected_target();
    let mut lines: Vec<String> = Vec::new();
    lines.push(String::from_str("Objects"));
    lines.push(String::from_str("Up/Down select | Enter inspect | Esc close"));
    lines.push(String::new());
    proof {
        reveal_strlit("Objects");
        reveal_strlit("Up/Down select | Enter inspect | Esc close");
        reveal_strlit("");
        let ghost empty: Seq<String> = Seq::empty();
        assert(lines@ =~= empty.push(lines@[0]).push(lines@[1]).push(lines@[2]));
        lemma_texts_view_push(empty, lines@[0]);
        lemma_texts_view_push(empty.push(lines@[0]), lines@[1]);
        lemma_texts_view_push(empty.push(lines@[0]).push(lines@[1]), lines@[2]);
        assert(texts_view(empty) =~= Seq::<Seq<char>>::empty());
        assert(texts_view(lines@)[0] == "Objects"@);
        assert(texts_view(lines@)[1] == "Up/Down select | Enter inspect | Esc close"@);
        assert(texts_view(lines@)[2] == ""@);
        assert(texts_view(lines@).len() == 3);
        assert(texts_view(lines@) =~= objects_header());
    }
    let ghost labels_view = texts_view(labels@);
    let mut index: usize = 0;
    while index < entries.len()
        invariant
            target_semantics::<T>(),
            entries@ == session@.entries,
            labels@.len() == entries@.len(),
            labels_view == texts_view(labels@),
            selected == session@.selected_entry,
            inspected == match session@.inspected_target {
                Some(t) => Some(&t),
                None => None::<&T>,
            },
            index <= entries@.len(),
            texts_view(lines@) == objects_header() + Seq::new(
                index as nat,
                |i: int|
                    object_row_at(
                        session@.entries,
                        labels_view,
                        session@.selected_entry,
                        session@.inspected_target,
                        i,
                    ),
            ),
        decreases entries@.len() - index,
    {
        let entry = &entries[index];
        let mut row = if index == selected {
            String::from_str(">")
        } else {
            String::from_str(" ")
        };
        push_text(&mut row, " ");
        push_text(&mut row, labels[index].as_str());
        push_text(&mut row, "  (");
        let word = match entry.visible {
            Some(true) => "visible",
            Some(false) => "hidden",
            None => "runtime",
        };
        push_text(&mut row, word);
        push_text(&mut row, ")");
        let is_inspected = match inspected {
            Some(target) => *target == entry.target,
            None => false,
        };
        if is_inspected {
            push_text(&mut row, " [inspected]");
        }
        proof {
            reveal_strlit(">");
            reveal_strlit(" ");
            reveal_strlit("  (");
            reveal_strlit("visible");
            reveal_strlit("hidden");
            reveal_strlit("runtime");
            reveal_strlit(")");
            reveal_strlit(" [inspected]");
            reveal_strlit("");
            assert(labels_view[index as int] == labels@[index as int]@);
            assert(is_inspected == (session@.inspected_target == Some(entries@[index as int].target)));
            assert(row@ =~= object_row_at(
                session@.entries,
                labels_view,
                session@.selected_entry,
                session@.inspected_target,
                index as int,
            ));
        }
        let ghost before = lines@;
        lines.push(row);
        proof {
            lemma_texts_view_push(before, lines@[lines@.len() - 1]);
            assert(lines@ == before.push(lines@[lines@.len() - 1]));
        }
        index = index + 1;
        proof {
            assert(texts_view(lines@) =~= objects_header() + Seq::new(
                index as nat,
                |i: int|
                    object_row_at(
                        session@.entries,
                        labels_view,
                        session@.selected_entry,
                        session@.inspected_target,
                        i,
                    ),
            ));
        }
    }
    Some(lines)
}

/// The header of the scene browser.
pub open spec fn scene_browser_header() -> Seq<Seq<char>> {
    seq!["Scenes"@, "Up/Down select | Enter open | Esc close"@, ""@]
}

/// The row of scene `index` titled `title` in the scene browser.
pub open spec fn scene_row(browser: SceneBrowser, title: Seq<char>, index: int) -> Seq<char> {
    selector(index == browser.selected) + " "@ + title + if index == browser.position {
        " [current]"@
    } else {
        ""@
    }
}

/// The scene browser while it is open: a header, then one row per scene,
/// marking the selected row and the scene that is shown. `titles` names the
/// scenes in order.
pub fn scene_browser_lines(browser: &SceneBrowser, titles: &[String]) -> (lines: Option<
    Vec<String>,
>)
    ensures
        !browser.open ==> lines is None,
        browser.open ==> lines is Some && texts_view(lines->0@) == scene_browser_header()
            + Seq::new(titles@.len(), |index: int| scene_row(*browser, titles@[index]@, index)),
{
    if !browser.open {
        return None;
    }
    let mut lines: Vec<String> = Vec::new();
    lines.push(String::from_str("Scenes"));
    lines.push(String::from_str("Up/Down select | Enter open | Esc close"));
    lines.push(String::new());
    proof {
        reveal_strlit("Scenes");
        reveal_strlit("Up/Down select | Enter open | Esc close");
        reveal_strlit("");
        let ghost empty: Seq<String> = Seq::empty();
        assert(lines@ =~= empty.push(lines@[0]).push(lines@[1]).push(lines@[2]));
        lemma_texts_view_push(empty, lines@[0]);
        lemma_texts_view_push(empty.push(lines@[0]), lines@[1]);
        lemma_texts_view_push(empty.push(lines@[0]).push(lines@[1]), lines@[2]);
        assert(texts_view(empty) =~= Seq::<Seq<char>>::empty());
        assert(texts_view(lines@)[0] == "Scenes"@);
        assert(texts_view(lines@)[1] == "Up/Down select | Enter open | Esc close"@);
        assert(texts_view(lines@)[2] == ""@);
        assert(texts_view(lines@).len() == 3);
        assert(texts_view(lines@) =~= scene_browser_header());
    }
    let mut index: usize = 0;
    while index < titles.len()
        invariant
            index <= titles@.len(),
            texts_view(lines@) == scene_browser_header() + Seq::new(
                index as nat,
                |i: int| scene_row(*browser, titles@[i]@, i),
            ),
        decreases titles@.len() - index,
    {
        let mut row = if index == browser.selected {
            String::from_str(">")
        } else {
            String::from_str(" ")
        };
        push_text(&mut row, " ");
        push_text(&mut row, titles[index].as_str());
        if index == browser.position {
            push_text(&mut row, " [current]");
        }
        proof {
            reveal_strlit(">");
            reveal_strlit(" ");
            reveal_strlit(" [current]");
            reveal_strlit("");
            assert(row@ =~= scene_row(*browser, titles@[index as int]@, index as int));
        }
        let ghost before = lines@;
        lines.push(row);
        proof {
            lemma_texts_view_push(before, lines@[lines@.len() - 1]);
            assert(lines@ == before.push(lines@[lines@.len() - 1]));
        }
        index = index + 1;
        proof {
            assert(texts_view(lines@) =~= scene_browser_header() + Seq::new(
                index as nat,
                |i: int| scene_row(*browser, titles@[i]@, i),
            ));
        }
    }
    Some(lines)
}

} // verus!
