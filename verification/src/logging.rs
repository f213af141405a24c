//! The layout of a log line: level, module path, function, spans, message
//! and the remaining fields.

use vstd::prelude::*;
use vstd::string::*;
use crate::text::{find_chars, first_occurrence, same_text, to_chars};

verus! {

/// Lays out log lines with the level, the module path and the function that
/// logged.
#[derive(Debug, Clone, Copy, PartialEq, Eq, Structural)]
pub struct FunctionFormatter {
}

impl Default for FunctionFormatter {
    fn default() -> (r: Self)
        ensures
            r == (FunctionFormatter {  }),
    {
        FunctionFormatter {  }
    }
}

/// The mathematical content of a visitor.
pub struct VisitorModel {
    pub message: Option<Seq<char>>,
    pub function: Option<Seq<char>>,
    pub other_fields: Seq<(Seq<char>, Seq<char>)>,
}

/// The views of a list of pairs of strings.
pub open spec fn pairs_of(v: Seq<(String, String)>) -> Seq<(Seq<char>, Seq<char>)> {
    Seq::new(v.len(), |i: int| (v[i].0@, v[i].1@))
}

/// The views of a list of strings.
pub open spec fn names_of(v: Seq<String>) -> Seq<Seq<char>> {
    Seq::new(v.len(), |i: int| v[i]@)
}

/// A rendered value without the double quotes around it, where it has them.
pub open spec fn cleaned(s: Seq<char>) -> Seq<char> {
    if s.len() >= 2 && s[0] == '"' && s.last() == '"' {
        s.subrange(1, s.len() - 1)
    } else {
        s
    }
}

/// What marks the closure in the type name of a closure.
pub open spec fn closure_mark() -> Seq<char> {
    "::{{closure"@
}

/// The path of the function in which a closure with this type name stands:
/// the name up to the first closure mark, or all of it where there is none.
pub open spec fn function_path_text(closure_name: Seq<char>) -> Seq<char> {
    match first_occurrence(closure_name, closure_mark()) {
        Some(at) => closure_name.subrange(0, at),
        None => closure_name,
    }
}

/// `items` joined, with `separator` between any two.
pub open spec fn joined(items: Seq<Seq<char>>, separator: Seq<char>) -> Seq<char>
    decreases items.len(),
{
    if items.len() == 0 {
        Seq::empty()
    } else if items.len() == 1 {
        items[0]
    } else {
        joined(items.drop_last(), separator) + separator + items.last()
    }
}

/// The fields of an event, each as a space, its name, `=` and its value.
pub open spec fn fields_text(fields: Seq<(Seq<char>, Seq<char>)>) -> Seq<char>
    decreases fields.len(),
{
    if fields.len() == 0 {
        Seq::empty()
    } else {
        fields_text(fields.drop_last()) + " "@ + fields.last().0 + "="@ + fields.last().1
    }
}

/// The spans of an event, outermost first, in square brackets; nothing where
/// there are none.
pub open spec fn spans_text(spans: Seq<Seq<char>>) -> Seq<char> {
    if spans.len() == 0 {
        Seq::empty()
    } else {
        " ["@ + joined(spans, "::"@) + "]"@
    }
}

/// One log line.
pub open spec fn line_text(
    level: Seq<char>,
    module: Seq<char>,
    visitor: VisitorModel,
    spans: Seq<Seq<char>>,
) -> Seq<char> {
    level + " "@ + module + (match visitor.function {
        Some(f) => "::"@ + f,
        None => Seq::empty(),
    }) + spans_text(spans) + ":"@ + (match visitor.message {
        Some(m) => " "@ + m,
        None => Seq::empty(),
    }) + fields_text(visitor.other_fields) + "\n"@
}

impl VisitorModel {
    /// The visitor after the field `name` was recorded with `value`.
    pub open spec fn recorded(self, name: Seq<char>, value: Seq<char>) -> VisitorModel {
        if name == "message"@ {
            VisitorModel { message: Some(value), ..self }
        } else if name == "function"@ {
            VisitorModel { function: Some(value), ..self }
        } else {
            VisitorModel { other_fields: self.other_fields.push((name, value)), ..self }
        }
    }
}

/// Collects the fields of one event.
#[derive(Debug)]
pub struct EventVisitor {
    pub message: Option<String>,
    pub function: Option<String>,
    pub other_fields: Vec<(String, String)>,
}

impl View for EventVisitor {
    type V = VisitorModel;

    open spec fn view(&self) -> VisitorModel {
        VisitorModel {
            message: match self.message {
                Some(s) => Some(s@),
                None => None,
            },
            function: match self.function {
                Some(s) => Some(s@),
                None => None,
            },
            other_fields: pairs_of(self.other_fields@),
        }
    }
}

impl EventVisitor {
    /// A visitor that has seen no field.
    pub fn new() -> (r: Self)
        ensures
            r@ == (VisitorModel { message: None, function: None, other_fields: Seq::empty() }),
    {
        let r = EventVisitor { message: None, function: None, other_fields: Vec::new() };
        assert(pairs_of(r.other_fields@) =~= Seq::empty());
        r
    }

    /// `value` without the double quotes around it, where it has them.
    pub fn clean(value: String) -> (r: String)
        ensures
            r@ == cleaned(value@),
    {
        let chars = to_chars(value.as_str());
        let n = chars.len();
        if n >= 2 && chars[0] == '"' && chars[n - 1] == '"' {
            value.as_str().substring_char(1, n - 1).to_owned()
        } else {
            value
        }
    }

    /// Records the field `name` with the text `value`.
    pub fn record_str(&mut self, name: &str, value: &str)
        ensures
            final(self)@ == old(self)@.recorded(name@, value@),
    {
        if same_text(name, "message") {
            self.message = Some(value.to_owned());
        } else if same_text(name, "function") {
            self.function = Some(value.to_owned());
        } else {
            let ghost before = self.other_fields@;
            self.other_fields.push((name.to_owned(), value.to_owned()));
            assert(pairs_of(self.other_fields@) =~= pairs_of(before).push((name@, value@)));
        }
    }

    /// Records the field `name` with a value as its debug rendering shows it,
    /// without the quotes that a rendered string has around it.
    pub fn record_debug(&mut self, name: &str, rendered: &str)
        ensures
            final(self)@ == old(self)@.recorded(name@, cleaned(rendered@)),
    {
        let value = EventVisitor::clean(rendered.to_owned());
        self.record_str(name, value.as_str());
    }
}

/// The path of the function in which a closure with the type name
/// `closure_name` stands.
pub fn function_path(closure_name: &str) -> (r: &str)
    ensures
        r@ == function_path_text(closure_name@),
{
    let name = to_chars(closure_name);
    let mark = to_chars("::{{closure");
    match find_chars(&name, &mark) {
        Some(at) => closure_name.substring_char(0, at),
        None => closure_name,
    }
}

impl FunctionFormatter {
    /// One log line for an event of level `level` from `module`, with
    /// the fields that `visitor` collected and the names of the spans around
    /// the event, outermost first.
    pub fn format_line(
        &self,
        level: &str,
        module: &str,
        visitor: &EventVisitor,
        spans: &Vec<String>,
    ) -> (r: String)
        ensures
            r@ == line_text(level@, module@, visitor@, names_of(spans@)),
    {
        let mut r = level.to_owned();
        r.append(" ");
        r.append(module);
        match &visitor.function {
            Some(f) => {
                r.append("::");
                r.append(f.as_str());
            },
            None => {},
        }
        let ghost head = r@;
        if spans.len() > 0 {
            r.append(" [");
            let mut i: usize = 0;
            while i < spans.len()
                invariant
                    i <= spans.len(),
                    r@ == head + " ["@ + joined(names_of(spans@).take(i as int), "::"@),
                decreases spans.len() - i,
            {
                proof {
                    let next = names_of(spans@).take(i as int + 1);
                    assert(next.drop_last() =~= names_of(spans@).take(i as int));
                    assert(next.last() == spans@[i as int]@);
                    if i == 0 {
                        assert(next[0] == spans@[0]@);
                    }
                }
                if i > 0 {
                    r.append("::");
                }
                r.append(spans[i].as_str());
                i += 1;
            }
            assert(names_of(spans@).take(i as int) =~= names_of(spans@));
            r.append("]");
        }
        assert(r@ == head + spans_text(names_of(spans@)));
        r.append(":");
        match &visitor.message {
            Some(m) => {
                r.append(" ");
                r.append(m.as_str());
            },
            None => {},
        }
        let ghost body = r@;
        let mut k: usize = 0;
        while k < visitor.other_fields.len()
            invariant
                k <= visitor.other_fields.len(),
                r@ == body + fields_text(pairs_of(visitor.other_fields@).take(k as int)),
            decreases visitor.other_fields.len() - k,
        {
            proof {
                let next = pairs_of(visitor.other_fields@).take(k as int + 1);
                assert(next.drop_last() =~= pairs_of(visitor.other_fields@).take(k as int));
                assert(next.last() == (
                    visitor.other_fields@[k as int].0@,
                    visitor.other_fields@[k as int].1@,
                ));
            }
            r.append(" ");
            r.append(visitor.other_fields[k].0.as_str());
            r.append("=");
            r.append(visitor.other_fields[k].1.as_str());
            k += 1;
        }
        assert(pairs_of(visitor.other_fields@).take(k as int) =~= pairs_of(
            visitor.other_fields@,
        ));
        r.append("\n");
        r
    }
}

} // verus!
