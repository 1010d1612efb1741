//! The formatter: from a document to its indented, coloured text.

use vstd::prelude::*;
use vstd::string::*;

use crate::layout::{
    closing, indentation, items_layout, layout, member_start, members_layout, quoted, Piece,
};
use crate::paint::colorize_str;
use crate::parse::{parse_value, parsed, to_json_value, Diagnostic, FormatError};
use crate::policy::{Category, Colorizer};
use crate::render::{
    lemma_renders_concat, lemma_renders_layout, lemma_renders_then_layout,
    lemma_renders_then_token, lemma_renders_token,
};
use crate::value::{
    item_trees, lemma_array_view, lemma_object_view, member_trees, JsonValue, ValueTree,
};

verus! {

/// Puts `text` between double quotes. Nothing in it is escaped.
fn quote(text: &str) -> (out: String)
    ensures
        out@ == quoted(text@),
{
    let mut out = String::new();
    out.append("\"");
    out.append(text);
    out.append("\"");
    assert(out@ =~= quoted(text@));
    out
}

/// The indentation of the level below `indent`.
fn indent_further(indent: &str, Ghost(depth): Ghost<nat>) -> (out: String)
    requires
        indent@ == indentation(depth),
    ensures
        out@ == indentation(depth + 1),
{
    let mut out = indent.to_string();
    out.append("  ");
    proof {
        reveal_strlit("  ");
        assert(out@ =~= indentation(depth + 1));
    }
    out
}

/// Starts the line of the member with index `index`: after a comma, unless the member
/// is the first, a line break and `inner`, the indentation of the members.
fn start_member(buf: &mut String, index: usize, inner: &str, Ghost(depth): Ghost<nat>)
    requires
        inner@ == indentation(depth),
    ensures
        final(buf)@ == old(buf)@ + member_start(index as int, depth),
{
    if index != 0 {
        buf.append(",");
    }
    buf.append("\n");
    buf.append(inner);
    assert(buf@ =~= old(buf)@ + member_start(index as int, depth));
}

/// Closes a container of `count` members: the bracket, on a line of its own with the
/// indentation `indent` unless there is no member.
fn close(buf: &mut String, count: usize, indent: &str, bracket: &str, Ghost(depth): Ghost<nat>)
    requires
        indent@ == indentation(depth),
    ensures
        final(buf)@ == old(buf)@ + closing(count as nat, depth, bracket@),
{
    if count != 0 {
        buf.append("\n");
        buf.append(indent);
    }
    buf.append(bracket);
    assert(buf@ =~= old(buf)@ + closing(count as nat, depth, bracket@));
}

impl Colorizer {
    /// Colorize a JSON string. Currently, all strings will be pretty-printed (with indentation and
    /// spacing).
    ///
    /// # Errors
    ///
    /// An error is returned if the string is invalid JSON.
    pub fn colorize_json_str(&self, s: &str) -> (formatted: Result<String, FormatError>)
        ensures
            match formatted {
                Ok(out) => parsed(s@) matches Ok(tree) && self.renders(layout(tree, 0), out@),
                Err(FormatError::InvalidJson(error)) => parsed(s@) == Err::<ValueTree, Diagnostic>(
                    error@,
                ),
            },
    {
        match parse_value(s) {
            Ok(value) => {
                let json = to_json_value(&value);
                Ok(self.colorize_json_with_indentation(&json, 0))
            },
            Err(error) => Err(FormatError::InvalidJson(error)),
        }
    }

    /// Formats `value` as it stands `indent_level` levels deep in a document: its
    /// first line is not indented, the lines after it are.
    pub fn colorize_json_with_indentation(
        &self,
        value: &JsonValue,
        indent_level: u8,
    ) -> (out: String)
        ensures
            self.renders(layout(value@, indent_level as nat), out@),
    {
        let mut indent = String::new();
        let mut level: u8 = 0;
        assert(indent@ =~= indentation(0));
        while level < indent_level
            invariant
                level <= indent_level,
                indent@ == indentation(level as nat),
            decreases indent_level - level,
        {
            indent = indent_further(indent.as_str(), Ghost(level as nat));
            level += 1;
        }
        self.colorize_at(value, indent.as_str(), Ghost(indent_level as nat))
    }

    /// Formats `value` where `indent` is the indentation of the line on which it starts.
    fn colorize_at(
        &self,
        value: &JsonValue,
        indent: &str,
        Ghost(depth): Ghost<nat>,
    ) -> (out: String)
        requires
            indent@ == indentation(depth),
        ensures
            self.renders(layout(value@, depth), out@),
        decreases value, 0nat,
    {
        match value {
            JsonValue::Null => {
                let out = colorize_str("null", &self.null);
                proof {
                    lemma_renders_token(*self, Category::Null, "null"@, out@);
                }
                out
            },
            JsonValue::Bool(true) => {
                let out = colorize_str("true", &self.boolean);
                proof {
                    lemma_renders_token(*self, Category::Boolean, "true"@, out@);
                }
                out
            },
            JsonValue::Bool(false) => {
                let out = colorize_str("false", &self.boolean);
                proof {
                    lemma_renders_token(*self, Category::Boolean, "false"@, out@);
                }
                out
            },
            JsonValue::Number(text) => {
                let out = colorize_str(text.as_str(), &self.number);
                proof {
                    lemma_renders_token(*self, Category::Number, text@, out@);
                }
                out
            },
            JsonValue::Str(text) => {
                let literal = quote(text.as_str());
                let out = colorize_str(literal.as_str(), &self.string);
                proof {
                    lemma_renders_token(*self, Category::String, quoted(text@), out@);
                }
                out
            },
            JsonValue::Array(items) => {
                proof {
                    lemma_array_view(*items);
                }
                self.colorize_array(items, indent, Ghost(depth))
            },
            JsonValue::Object(members) => {
                proof {
                    lemma_object_view(*members);
                }
                self.colorize_object(members, indent, Ghost(depth))
            },
        }
    }

    /// Formats an array of `items` that opens on a line with the indentation `indent`.
    fn colorize_array(
        &self,
        items: &Vec<JsonValue>,
        indent: &str,
        Ghost(depth): Ghost<nat>,
    ) -> (out: String)
        requires
            indent@ == indentation(depth),
        ensures
            self.renders(layout(ValueTree::Array(item_trees(items@)), depth), out@),
        decreases items, 1nat,
    {
        let ghost trees = item_trees(items@);
        let inner = indent_further(indent, Ghost(depth));
        let mut buf = String::new();
        buf.append("[");
        proof {
            lemma_renders_layout(*self, "["@);
            assert(buf@ =~= "["@);
            assert(seq![Piece::Layout("["@)] + items_layout(trees, 0, depth) =~= seq![
                Piece::Layout("["@),
            ]);
        }
        let mut i: usize = 0;
        while i < items.len()
            invariant
                i <= items.len(),
                trees == item_trees(items@),
                inner@ == indentation(depth + 1),
                self.renders(
                    seq![Piece::Layout("["@)] + items_layout(trees, i as nat, depth),
                    buf@,
                ),
            decreases items.len() - i,
        {
            let ghost before = buf@;
            let ghost done = seq![Piece::Layout("["@)] + items_layout(trees, i as nat, depth);
            start_member(&mut buf, i, inner.as_str(), Ghost(depth + 1));
            let item = self.colorize_at(&items[i], inner.as_str(), Ghost(depth + 1));
            buf.append(item.as_str());
            proof {
                let start = member_start(i as int, depth + 1);
                lemma_renders_then_layout(*self, done, before, start);
                lemma_renders_concat(
                    *self,
                    done.push(Piece::Layout(start)),
                    before + start,
                    layout(trees[i as int], depth + 1),
                    item@,
                );
                assert(seq![Piece::Layout("["@)] + items_layout(trees, (i + 1) as nat, depth)
                    =~= done.push(Piece::Layout(start)) + layout(trees[i as int], depth + 1));
            }
            i += 1;
        }
        let ghost before = buf@;
        close(&mut buf, items.len(), indent, "]", Ghost(depth));
        proof {
            lemma_renders_then_layout(
                *self,
                seq![Piece::Layout("["@)] + items_layout(trees, trees.len(), depth),
                before,
                closing(trees.len(), depth, "]"@),
            );
            assert(layout(ValueTree::Array(trees), depth) =~= (seq![Piece::Layout("["@)]
                + items_layout(trees, trees.len(), depth)).push(
                Piece::Layout(closing(trees.len(), depth, "]"@)),
            ));
        }
        buf
    }

    /// Formats an object of `members` that opens on a line with the indentation `indent`.
    fn colorize_object(
        &self,
        members: &Vec<(String, JsonValue)>,
        indent: &str,
        Ghost(depth): Ghost<nat>,
    ) -> (out: String)
        requires
            indent@ == indentation(depth),
        ensures
            self.renders(layout(ValueTree::Object(member_trees(members@)), depth), out@),
        decreases members, 1nat,
    {
        let ghost trees = member_trees(members@);
        let inner = indent_further(indent, Ghost(depth));
        let mut buf = String::new();
        buf.append("{");
        proof {
            lemma_renders_layout(*self, "{"@);
            assert(buf@ =~= "{"@);
            assert(seq![Piece::Layout("{"@)] + members_layout(trees, 0, depth) =~= seq![
                Piece::Layout("{"@),
            ]);
        }
        let mut i: usize = 0;
        while i < members.len()
            invariant
                i <= members.len(),
                trees == member_trees(members@),
                inner@ == indentation(depth + 1),
                self.renders(
                    seq![Piece::Layout("{"@)] + members_layout(trees, i as nat, depth),
                    buf@,
                ),
            decreases members.len() - i,
        {
            let ghost before = buf@;
            let ghost done = seq![Piece::Layout("{"@)] + members_layout(trees, i as nat, depth);
            start_member(&mut buf, i, inner.as_str(), Ghost(depth + 1));
            let member = &members[i];
            let name = quote(member.0.as_str());
            let key = colorize_str(name.as_str(), &self.key);
            buf.append(key.as_str());
            buf.append(": ");
            let item = self.colorize_at(&member.1, inner.as_str(), Ghost(depth + 1));
            buf.append(item.as_str());
            proof {
                let start = member_start(i as int, depth + 1);
                let name_text = quoted(trees[i as int].0);
                let with_start = done.push(Piece::Layout(start));
                let with_key = with_start.push(Piece::Token(Category::Key, name_text));
                let with_colon = with_key.push(Piece::Layout(": "@));
                lemma_renders_then_layout(*self, done, before, start);
                lemma_renders_then_token(
                    *self,
                    with_start,
                    before + start,
                    Category::Key,
                    name_text,
                    key@,
                );
                lemma_renders_then_layout(*self, with_key, before + start + key@, ": "@);
                lemma_renders_concat(
                    *self,
                    with_colon,
                    before + start + key@ + ": "@,
                    layout(trees[i as int].1, depth + 1),
                    item@,
                );
                assert(seq![Piece::Layout("{"@)] + members_layout(trees, (i + 1) as nat, depth)
                    =~= with_colon + layout(trees[i as int].1, depth + 1));
            }
            i += 1;
        }
        let ghost before = buf@;
        close(&mut buf, members.len(), indent, "}", Ghost(depth));
        proof {
            lemma_renders_then_layout(
                *self,
                seq![Piece::Layout("{"@)] + members_layout(trees, trees.len(), depth),
                before,
                closing(trees.len(), depth, "}"@),
            );
            assert(layout(ValueTree::Object(trees), depth) =~= (seq![Piece::Layout("{"@)]
                + members_layout(trees, trees.len(), depth)).push(
                Piece::Layout(closing(trees.len(), depth, "}"@)),
            ));
        }
        buf
    }
}

} // verus!
