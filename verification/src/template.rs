//! The message envelope: subject, preview text, named variables, an
//! optional explicit from-mailbox, the recipient, and a body template with
//! `{{name}}` placeholder markers. Rendering substitutes every registered
//! variable into the body; a marker that is opened but never closed makes
//! the body unrenderable.

use crate::mailbox::is_mailbox;
use vstd::prelude::*;

verus! {

/// Why an envelope could not be built or rendered.
#[derive(Debug, Clone, Copy, PartialEq, Eq, Structural)]
pub enum TemplateError {
    /// No from-mailbox was set and none was supplied.
    MissingFrom,
    /// No recipient was set.
    MissingRecipient,
    /// No body template was registered.
    MissingBody,
    /// The body holds an opening `{{` with no closing `}}`.
    UnrenderableBody,
    /// An address does not parse as a mailbox.
    InvalidMailbox,
}

/// A fully rendered message, ready for a transport.
#[derive(Debug, Clone)]
pub struct RenderedEmail {
    pub from: String,
    pub to: String,
    pub subject: String,
    pub preview: String,
    pub body: String,
}

/// Does `s` hold the character `c` twice in a row at `i`?
pub open spec fn matches2_at(s: Seq<char>, i: int, c: char) -> bool {
    0 <= i && i + 2 <= s.len() && s[i] == c && s[i + 1] == c
}

/// The first position at or after `from` where `c` occurs twice in a row,
/// if any. Positions before 0 are never reported.
pub open spec fn find2(s: Seq<char>, c: char, from: int) -> Option<int>
    decreases s.len() - from,
{
    if from < 0 || from + 2 > s.len() {
        None
    } else if matches2_at(s, from, c) {
        Some(from)
    } else {
        find2(s, c, from + 1)
    }
}

/// `find2` returns the first double occurrence at or after `from`, and
/// `None` exactly when there is none.
pub proof fn lemma_find2(s: Seq<char>, c: char, from: int)
    requires
        0 <= from,
    ensures
        find2(s, c, from) matches Some(j) ==> from <= j && matches2_at(s, j, c) && (forall|k: int|
            from <= k < j ==> !matches2_at(s, k, c)),
        find2(s, c, from) is None ==> forall|k: int| from <= k ==> !matches2_at(s, k, c),
    decreases s.len() - from,
{
    if from + 2 > s.len() {
    } else if matches2_at(s, from, c) {
    } else {
        lemma_find2(s, c, from + 1);
    }
}

/// Is the tail of `s` from `from` on renderable: every `{{` is followed by
/// a closing `}}`?
pub open spec fn spec_wf_from(s: Seq<char>, from: int) -> bool
    decreases s.len() - from,
        via spec_wf_from_dec
{
    match find2(s, '{', from) {
        Option::None => true,
        Option::Some(i) => match find2(s, '}', i + 2) {
            Option::None => false,
            Option::Some(j) => spec_wf_from(s, j + 2),
        },
    }
}

#[via_fn]
proof fn spec_wf_from_dec(s: Seq<char>, from: int) {
    find2_step_bounds(s, from);
}

proof fn find2_step_bounds(s: Seq<char>, from: int)
    ensures
        find2(s, '{', from) matches Some(i) ==> from <= i && i + 2 <= s.len() && (find2(
            s,
            '}',
            i + 2,
        ) matches Some(j) ==> i + 2 <= j && j + 2 <= s.len()),
{
    if 0 <= from {
        lemma_find2(s, '{', from);
        match find2(s, '{', from) {
            Option::Some(i) => {
                lemma_find2(s, '}', i + 2);
            },
            Option::None => {},
        }
    } else {
        assert(find2(s, '{', from) is None);
    }
}

/// The value bound to `name`, the last registration winning; the empty
/// string where `name` was never registered.
pub open spec fn spec_lookup(vars: Seq<(Seq<char>, Seq<char>)>, name: Seq<char>) -> Seq<char>
    decreases vars.len(),
{
    if vars.len() == 0 {
        Seq::empty()
    } else if vars.last().0 == name {
        vars.last().1
    } else {
        spec_lookup(vars.drop_last(), name)
    }
}

/// The rendering of the tail of `s` from `from` on: text is copied, each
/// `{{name}}` marker is replaced by the value bound to `name`, and an
/// unclosed `{{` makes the result `None`.
pub open spec fn spec_render_from(
    s: Seq<char>,
    vars: Seq<(Seq<char>, Seq<char>)>,
    from: int,
) -> Option<Seq<char>>
    decreases s.len() - from,
        via spec_render_from_dec
{
    match find2(s, '{', from) {
        Option::None => Some(s.subrange(from, s.len() as int)),
        Option::Some(i) => match find2(s, '}', i + 2) {
            Option::None => None,
            Option::Some(j) => match spec_render_from(s, vars, j + 2) {
                Option::None => None,
                Option::Some(tail) => Some(
                    s.subrange(from, i) + spec_lookup(vars, s.subrange(i + 2, j)) + tail,
                ),
            },
        },
    }
}

#[via_fn]
proof fn spec_render_from_dec(s: Seq<char>, vars: Seq<(Seq<char>, Seq<char>)>, from: int) {
    find2_step_bounds(s, from);
}

/// The rendering of a whole body.
pub open spec fn spec_render(s: Seq<char>, vars: Seq<(Seq<char>, Seq<char>)>) -> Option<Seq<char>> {
    spec_render_from(s, vars, 0)
}

/// Whether a body renders depends on its markers alone, never on which
/// variables are registered: a body accepted at registration renders under
/// every variable set, and a rejected one under none.
pub proof fn lemma_wf_renders(s: Seq<char>, vars: Seq<(Seq<char>, Seq<char>)>, from: int)
    ensures
        spec_wf_from(s, from) <==> spec_render_from(s, vars, from) is Some,
    decreases s.len() - from,
{
    find2_step_bounds(s, from);
    match find2(s, '{', from) {
        Option::None => {},
        Option::Some(i) => {
            match find2(s, '}', i + 2) {
                Option::None => {},
                Option::Some(j) => {
                    lemma_wf_renders(s, vars, j + 2);
                },
            }
        },
    }
}

fn find2_exec(s: &str, c: char, from: usize) -> (r: Option<usize>)
    requires
        from <= s@.len(),
    ensures
        r matches Some(i) ==> find2(s@, c, from as int) == Some(i as int) && from <= i && i + 2
            <= s@.len(),
        r is None ==> find2(s@, c, from as int) is None,
{
    let n = s.unicode_len();
    let mut i: usize = from;
    while i < n && i + 1 < n
        invariant
            n == s@.len(),
            from <= i <= n,
            forall|k: int| from <= k < i ==> !matches2_at(s@, k, c),
        decreases n - i,
    {
        if s.get_char(i) == c && s.get_char(i + 1) == c {
            proof {
                assert(matches2_at(s@, i as int, c));
                lemma_find2(s@, c, from as int);
                match find2(s@, c, from as int) {
                    Option::Some(j) => {
                        assert(!(j < i) && !(j > i));
                    },
                    Option::None => {
                        assert(!matches2_at(s@, i as int, c));
                    },
                }
            }
            return Some(i);
        }
        i = i + 1;
    }
    proof {
        lemma_find2(s@, c, from as int);
        match find2(s@, c, from as int) {
            Option::Some(j) => {
                assert(matches2_at(s@, j, c));
                assert(false);
            },
            Option::None => {},
        }
    }
    None
}

fn lookup_var<'a>(vars: &'a Vec<(String, String)>, name: &str) -> (r: Option<&'a String>)
    ensures
        r matches Some(v) ==> v@ == spec_lookup(vars.deep_view(), name@),
        r is None ==> spec_lookup(vars.deep_view(), name@) == Seq::<char>::empty(),
{
    let ghost dv = vars.deep_view();
    proof {
        assert(dv.take(vars.len() as int) =~= dv);
    }
    let mut i: usize = vars.len();
    while i > 0
        invariant
            i <= vars.len(),
            dv == vars.deep_view(),
            dv.len() == vars.len(),
            spec_lookup(dv, name@) == spec_lookup(dv.take(i as int), name@),
        decreases i,
    {
        i = i - 1;
        let pair = &vars[i];
        proof {
            assert(dv.take(i + 1).last() == dv[i as int]);
            assert(dv.take(i + 1).drop_last() =~= dv.take(i as int));
        }
        if crate::strutil::str_eq(pair.0.as_str(), name) {
            return Some(&pair.1);
        }
    }
    proof {
        assert(dv.take(0) =~= Seq::<(Seq<char>, Seq<char>)>::empty());
    }
    None
}

/// Is the whole body renderable?
fn scan_wf(s: &str) -> (b: bool)
    ensures
        b == spec_wf_from(s@, 0),
{
    let n = s.unicode_len();
    let mut pos: usize = 0;
    loop
        invariant
            n == s@.len(),
            pos <= n,
            spec_wf_from(s@, 0) == spec_wf_from(s@, pos as int),
        decreases n - pos,
    {
        match find2_exec(s, '{', pos) {
            Option::None => {
                proof {
                    assert(spec_wf_from(s@, pos as int));
                }
                return true;
            },
            Option::Some(i) => {
                match find2_exec(s, '}', i + 2) {
                    Option::None => {
                        proof {
                            assert(!spec_wf_from(s@, pos as int));
                        }
                        return false;
                    },
                    Option::Some(j) => {
                        proof {
                            assert(spec_wf_from(s@, pos as int) == spec_wf_from(s@, j + 2));
                        }
                        pos = j + 2;
                    },
                }
            },
        }
    }
}

/// Render `body`, substituting each `{{name}}` marker with the value bound
/// to `name` (the empty string where none is bound); `None` when a `{{`
/// has no closing `}}`.
pub fn render(body: &str, vars: &Vec<(String, String)>) -> (r: Option<String>)
    ensures
        r matches Some(out) ==> spec_render(body@, vars.deep_view()) == Some(out@),
        r is None ==> spec_render(body@, vars.deep_view()) is None,
{
    let ghost dv = vars.deep_view();
    let n = body.unicode_len();
    let mut out = String::new();
    let mut pos: usize = 0;
    loop
        invariant
            n == body@.len(),
            pos <= n,
            dv == vars.deep_view(),
            spec_render_from(body@, dv, 0) == (match spec_render_from(body@, dv, pos as int) {
                Option::Some(t) => Some(out@ + t),
                Option::None => None::<Seq<char>>,
            }),
        decreases n - pos,
    {
        let ghost pos0 = pos as int;
        let ghost out0 = out@;
        match find2_exec(body, '{', pos) {
            Option::None => {
                out.append(body.substring_char(pos, n));
                proof {
                    assert(spec_render_from(body@, dv, pos0) == Some(
                        body@.subrange(pos0, n as int),
                    ));
                    assert(out@ =~= out0 + body@.subrange(pos0, n as int));
                }
                return Some(out);
            },
            Option::Some(i) => {
                match find2_exec(body, '}', i + 2) {
                    Option::None => {
                        proof {
                            assert(spec_render_from(body@, dv, pos0) is None);
                        }
                        return None;
                    },
                    Option::Some(j) => {
                        out.append(body.substring_char(pos, i));
                        let name = body.substring_char(i + 2, j);
                        let ghost out_mid = out@;
                        match lookup_var(vars, name) {
                            Option::Some(v) => {
                                out.append(v.as_str());
                            },
                            Option::None => {},
                        }
                        proof {
                            assert(out@ =~= out_mid + spec_lookup(dv, name@));
                        }
                        pos = j + 2;
                        proof {
                            match spec_render_from(body@, dv, pos as int) {
                                Option::Some(t2) => {
                                    assert(out@ + t2 =~= out0 + (body@.subrange(pos0, i as int)
                                        + spec_lookup(dv, name@) + t2));
                                },
                                Option::None => {},
                            }
                        }
                    },
                }
            },
        }
    }
}

/// A message envelope under construction.
#[derive(Debug, Clone)]
pub struct Template {
    pub subject: String,
    pub preview: String,
    /// Registered variables, in registration order; at rendering the last
    /// binding of a name wins.
    pub vars: Vec<(String, String)>,
    /// The registered body template.
    pub body: Option<String>,
    /// The recipient address.
    pub to: Option<String>,
    /// The explicit from-mailbox; absent until the sender stamps its
    /// default.
    pub from: Option<String>,
    /// When set, the message counts as sent without any transport call.
    pub skip_send: bool,
}

/// Can this envelope be rendered into a wire message, once a from-mailbox
/// is supplied: recipient set, body registered, and body renderable?
pub open spec fn spec_sendable(t: Template) -> bool {
    t.to is Some && t.body is Some && spec_render(t.body->0@, t.vars.deep_view()) is Some
}

/// The error reported for an envelope that cannot be rendered.
pub open spec fn spec_sendable_err(t: Template) -> TemplateError {
    if t.to is None {
        TemplateError::MissingRecipient
    } else if t.body is None {
        TemplateError::MissingBody
    } else {
        TemplateError::UnrenderableBody
    }
}

/// The from-address a message is rendered with: its own, or the supplied
/// default.
pub open spec fn spec_effective_from(t: Template, default_from: Seq<char>) -> Seq<char> {
    if t.from is Some {
        t.from->0@
    } else {
        default_from
    }
}

impl Template {
    /// A fresh envelope with the given subject and preview text.
    pub fn new(subject: &str, preview: &str) -> (t: Template)
        ensures
            t.subject@ == subject@,
            t.preview@ == preview@,
            t.vars@.len() == 0,
            t.body is None,
            t.to is None,
            t.from is None,
            t.skip_send == false,
    {
        Template {
            subject: String::from_str(subject),
            preview: String::from_str(preview),
            vars: Vec::new(),
            body: Option::None,
            to: Option::None,
            from: Option::None,
            skip_send: false,
        }
    }

    /// Register a variable; a later registration of the same name wins at
    /// rendering.
    pub fn add_template_var(&mut self, name: &str, value: &str)
        ensures
            final(self).vars.deep_view() == old(self).vars.deep_view().push((name@, value@)),
            final(self).subject == old(self).subject,
            final(self).preview == old(self).preview,
            final(self).body == old(self).body,
            final(self).to == old(self).to,
            final(self).from == old(self).from,
            final(self).skip_send == old(self).skip_send,
    {
        self.vars.push((String::from_str(name), String::from_str(value)));
        proof {
            assert(final(self).vars.deep_view() =~= old(self).vars.deep_view().push(
                (name@, value@),
            ));
        }
    }

    /// Register the body template. Fails, leaving the envelope unchanged,
    /// when the body holds a `{{` with no closing `}}`.
    pub fn register_content_template(&mut self, content: &str) -> (r: Result<(), TemplateError>)
        ensures
            r is Ok <==> spec_wf_from(content@, 0),
            r is Ok ==> (final(self).body matches Some(b) && b@ == content@),
            r is Err ==> final(self).body == old(self).body && r == Err::<(), TemplateError>(
                TemplateError::UnrenderableBody,
            ),
            final(self).subject == old(self).subject,
            final(self).preview == old(self).preview,
            final(self).vars == old(self).vars,
            final(self).to == old(self).to,
            final(self).from == old(self).from,
            final(self).skip_send == old(self).skip_send,
    {
        if scan_wf(content) {
            self.body = Option::Some(String::from_str(content));
            Ok(())
        } else {
            Err(TemplateError::UnrenderableBody)
        }
    }

    /// Set the recipient. Fails when the address does not parse as a
    /// mailbox.
    pub fn to(self, addr: &str) -> (r: Result<Template, TemplateError>)
        ensures
            r is Ok <==> is_mailbox(addr@),
            r matches Ok(t) ==> (t.to matches Some(a) && a@ == addr@) && t.subject == self.subject
                && t.preview == self.preview && t.vars == self.vars && t.body == self.body
                && t.from == self.from && t.skip_send == self.skip_send,
            r matches Err(e) ==> e == TemplateError::InvalidMailbox,
    {
        if crate::mailbox::mailbox_is_valid(addr) {
            Ok(Template { to: Option::Some(String::from_str(addr)), ..self })
        } else {
            Err(TemplateError::InvalidMailbox)
        }
    }

    /// Set an explicit from-mailbox. Fails when the address does not parse
    /// as a mailbox.
    pub fn from_mailbox(self, addr: &str) -> (r: Result<Template, TemplateError>)
        ensures
            r is Ok <==> is_mailbox(addr@),
            r matches Ok(t) ==> (t.from matches Some(a) && a@ == addr@) && t.subject
                == self.subject && t.preview == self.preview && t.vars == self.vars && t.body
                == self.body && t.to == self.to && t.skip_send == self.skip_send,
            r matches Err(e) ==> e == TemplateError::InvalidMailbox,
    {
        if crate::mailbox::mailbox_is_valid(addr) {
            Ok(Template { from: Option::Some(String::from_str(addr)), ..self })
        } else {
            Err(TemplateError::InvalidMailbox)
        }
    }

    /// Mark or unmark the envelope as skip-send: a marked message counts
    /// as sent without any transport call.
    pub fn set_skip_send(&mut self, skip: bool)
        ensures
            final(self).skip_send == skip,
            final(self).subject == old(self).subject,
            final(self).preview == old(self).preview,
            final(self).vars == old(self).vars,
            final(self).body == old(self).body,
            final(self).to == old(self).to,
            final(self).from == old(self).from,
    {
        self.skip_send = skip;
    }

    /// Does the envelope carry an explicit from-mailbox?
    pub fn has_from(&self) -> (b: bool)
        ensures
            b == (self.from is Some),
    {
        self.from.is_some()
    }

    /// Render the wire message, taking `default_from` as the from-address
    /// when the envelope carries none.
    pub fn message_with_from(&self, default_from: &str) -> (r: Result<RenderedEmail, TemplateError>)
        ensures
            r is Ok <==> spec_sendable(*self),
            r matches Ok(m) ==> m.from@ == spec_effective_from(*self, default_from@) && m.to@
                == self.to->0@ && m.subject@ == self.subject@ && m.preview@ == self.preview@
                && m.body@ == spec_render(self.body->0@, self.vars.deep_view())->0,
            r matches Err(e) ==> e == spec_sendable_err(*self),
    {
        let to: &String = match &self.to {
            Option::Some(t) => t,
            Option::None => {
                return Err(TemplateError::MissingRecipient);
            },
        };
        let body: &String = match &self.body {
            Option::Some(b) => b,
            Option::None => {
                return Err(TemplateError::MissingBody);
            },
        };
        let rendered = match render(body.as_str(), &self.vars) {
            Option::Some(out) => out,
            Option::None => {
                return Err(TemplateError::UnrenderableBody);
            },
        };
        let from: String = match &self.from {
            Option::Some(f) => f.clone(),
            Option::None => String::from_str(default_from),
        };
        Ok(
            RenderedEmail {
                from,
                to: to.clone(),
                subject: self.subject.clone(),
                preview: self.preview.clone(),
                body: rendered,
            },
        )
    }

    /// Render the wire message from the envelope's own from-mailbox.
    pub fn message(&self) -> (r: Result<RenderedEmail, TemplateError>)
        ensures
            r is Ok <==> (self.from is Some && spec_sendable(*self)),
            r matches Ok(m) ==> m.from@ == self.from->0@ && m.to@ == self.to->0@ && m.subject@
                == self.subject@ && m.preview@ == self.preview@ && m.body@ == spec_render(
                self.body->0@,
                self.vars.deep_view(),
            )->0,
            r matches Err(e) ==> e == (if self.from is None {
                TemplateError::MissingFrom
            } else {
                spec_sendable_err(*self)
            }),
    {
        match &self.from {
            Option::Some(f) => {
                let from = f.clone();
                self.message_with_from(from.as_str())
            },
            Option::None => Err(TemplateError::MissingFrom),
        }
    }
}

} // verus!
