//! User-defined types.
use crate::alike::term_alike;
use crate::data_type::{predefined_type_at, spec_predefined_type, PredefinedType};
use crate::formatter::{Format, Formatter, Layout};
use crate::identifier::{
    schema_qualified_name_at, spec_schema_qualified_name, SchemaQualifiedName,
    SchemaQualifiedNameView,
};
use crate::keyword::{keyword_at, spec_keyword, Keyword};
use crate::list::List;
use crate::sequence::{spec_two_keywords, two_keywords_at};
use crate::term::{parse_term_at, spec_parse_term, Term, TermView};
use crate::text::{
    agrees, chars_of, finish, left, optional_step, parsed, spec_symbol, symbol_at, ParseError,
    Parsed, Step,
};
use vstd::prelude::*;

verus! {

/// `CREATE TYPE`, the name, the representation and the members.
#[derive(Debug, PartialEq, Clone)]
pub struct UserDefinedTypeDefinition(
    pub SchemaQualifiedName,
    pub Option<PredefinedType>,
    pub List<Member>,
);

/// The view of `UserDefinedTypeDefinition`: the same tree with sequences of
/// characters for its strings and sequences of views for its lists.
#[verifier::ext_equal]
pub struct UserDefinedTypeDefinitionView(
    pub SchemaQualifiedNameView,
    pub Option<PredefinedType>,
    pub Seq<MemberView>,
);

impl DeepView for UserDefinedTypeDefinition {
    type V = UserDefinedTypeDefinitionView;

    open spec fn deep_view(&self) -> UserDefinedTypeDefinitionView {
        UserDefinedTypeDefinitionView(
            self.0.deep_view(),
            self.1.deep_view(),
            self.2.deep_view(),
        )
    }
}

/// A member of a user-defined type: the text of a term.
#[derive(Debug, PartialEq, Clone)]
pub struct Member(pub String);

/// The view of `Member`: the same tree with sequences of characters for its
/// strings and sequences of views for its lists.
#[verifier::ext_equal]
pub struct MemberView(pub Seq<char>);

impl DeepView for Member {
    type V = MemberView;

    open spec fn deep_view(&self) -> MemberView {
        MemberView(self.0@)
    }
}

/// `AS` and a predefined type.
#[verifier::opaque]
pub open spec fn spec_representation(s: Seq<char>, pos: int) -> Parsed<PredefinedType> {
    match spec_keyword(s, pos, Keyword::As) {
        Parsed::Done(_, k) => match spec_predefined_type(s, pos + k) {
            Parsed::Done(t, n) => Parsed::Done(t, k + n),
            _ => Parsed::Miss,
        },
        _ => Parsed::Miss,
    }
}

/// Reads at `pos` what `spec_representation` describes: the value and the
/// position behind it, or the kind of failure.
pub fn representation_at(inp: &[char], pos: usize) -> (r: Step<PredefinedType>)
    requires
        pos <= inp@.len(),
    ensures
        agrees(r, inp@, pos as int, spec_representation(inp@, pos as int)),
{
    reveal(spec_representation);
    let p1 = match keyword_at(inp, pos, Keyword::As) {
        Ok((_, p)) => p,
        Err(_) => return Err(ParseError::Error),
    };
    match predefined_type_at(inp, p1) {
        Ok(done) => Ok(done),
        Err(_) => Err(ParseError::Error),
    }
}

/// Parses `AS` and a predefined type at the start of `input`.
pub fn parse_representation(input: &str) -> (r: Result<(&str, PredefinedType), ParseError>)
    ensures
        parsed(r, input@, spec_representation(input@, 0)),
{
    let chars = chars_of(input);
    let step = representation_at(chars.as_slice(), 0);
    finish(input, step, Ghost(spec_representation(input@, 0)))
}

/// The text to which a new formatter renders a term with the view `v`.
/// Rendering reads a term through its view only, so every term with that
/// view gives this text.
pub open spec fn term_text(v: TermView) -> Seq<char> {
    term_with(v).rendered(Layout::start()).buffer
}

/// Some term with the view `v`.
pub open spec fn term_with(v: TermView) -> Term {
    choose|t: Term| t.deep_view() == v
}

/// A member of a user-defined type: a term, kept as the text to which it
/// is rendered.
#[verifier::opaque]
pub open spec fn spec_member(s: Seq<char>, pos: int) -> Parsed<MemberView> {
    match spec_parse_term(s, pos) {
        Parsed::Done(v, n) => Parsed::Done(MemberView(term_text(v)), n),
        f => f.cast(),
    }
}

/// Reads at `pos` what `spec_member` describes: the value and the position
/// behind it, or the kind of failure.
pub fn member_at(inp: &[char], pos: usize) -> (r: Step<Member>)
    requires
        pos <= inp@.len(),
    ensures
        agrees(r, inp@, pos as int, spec_member(inp@, pos as int)),
{
    reveal(spec_member);
    match parse_term_at(inp, pos) {
        Ok((t, end)) => {
            let text = t.output();
            proof {
                let chosen = term_with(t.deep_view());
                assert(chosen.deep_view() == t.deep_view());
                term_alike(t, chosen, Layout::start());
            }
            Ok((Member(text), end))
        },
        Err(e) => Err(e),
    }
}

/// Parses a member of a user-defined type at the start of `input`.
pub fn parse_member(input: &str) -> (r: Result<(&str, Member), ParseError>)
    ensures
        parsed(r, input@, spec_member(input@, 0)),
{
    let chars = chars_of(input);
    let step = member_at(chars.as_slice(), 0);
    finish(input, step, Ghost(spec_member(input@, 0)))
}

/// The elements that follow in a list of which `acc` has been read: a
/// comma and an element, as often as both are there.
#[verifier::opaque]
pub open spec fn spec_members_more(s: Seq<char>, pos: int, acc: Seq<MemberView>) -> Parsed<
    Seq<MemberView>,
>
    decreases left(s, pos), 19nat,
{
    match spec_symbol(s, pos, ',') {
        Parsed::Done(_, k) => match spec_member(s, pos + k) {
            Parsed::Done(x, n) => spec_members_more(s, pos + k + n, acc.push(x)).after(k + n),
            Parsed::Halt => Parsed::Halt,
            Parsed::Miss => Parsed::Done(acc, 0),
        },
        _ => Parsed::Done(acc, 0),
    }
}

/// One or more members, separated by commas.
#[verifier::opaque]
pub open spec fn spec_members(s: Seq<char>, pos: int) -> Parsed<Seq<MemberView>>
    decreases left(s, pos), 20nat,
{
    match spec_member(s, pos) {
        Parsed::Done(x, n) => spec_members_more(s, pos + n, seq![x]).after(n),
        f => f.cast(),
    }
}

/// Reads at `pos` what `spec_members` describes: the value and the position
/// behind it, or the kind of failure.
pub fn members_at(inp: &[char], pos: usize) -> (r: Step<Vec<Member>>)
    requires
        pos <= inp@.len(),
    ensures
        agrees(r, inp@, pos as int, spec_members(inp@, pos as int)),
    decreases left(inp@, pos as int), 20nat,
{
    reveal(spec_members);
    reveal(spec_member);
    reveal(spec_members_more);
    reveal(spec_symbol);
    let (first, start) = match member_at(inp, pos) {
        Ok(done) => done,
        Err(e) => return Err(e),
    };
    let ghost whole = spec_members_more(inp@, start as int, seq![first.deep_view()]);
    let ghost mut xv = first.deep_view();
    let mut acc: Vec<Member> = Vec::new();
    acc.push(first);
    assert(acc.deep_view() =~= seq![xv]);
    let mut cur = start;
    reveal(spec_members_more);
    reveal(spec_member);
    loop
        invariant
            pos <= start <= cur <= inp@.len(),
            spec_members(inp@, pos as int) == whole.after((start - pos) as nat),
            whole == spec_members_more(inp@, cur as int, acc.deep_view()).after(
                (cur - start) as nat,
            ),
        decreases inp@.len() - cur,
    {
        reveal(spec_members_more);
        reveal(spec_member);
        let p1 = match symbol_at(inp, cur, ',') {
            Ok((_, p)) => p,
            Err(_) => return Ok((acc, cur)),
        };
        match member_at(inp, p1) {
            Ok((x, p2)) => {
                let ghost before = acc.deep_view();
                proof {
                    xv = x.deep_view();
                }
                acc.push(x);
                assert(acc.deep_view() =~= before.push(xv));
                cur = p2;
            },
            Err(ParseError::Failure) => return Err(ParseError::Failure),
            Err(ParseError::Error) => return Ok((acc, cur)),
        }
    }
}

/// `CREATE`, `TYPE`, a name, an optional representation and one or more
/// members between parentheses.
#[verifier::opaque]
pub open spec fn spec_user_defined_type_definition(s: Seq<char>, pos: int) -> Parsed<
    UserDefinedTypeDefinitionView,
> {
    match spec_two_keywords(s, pos, Keyword::Create, Keyword::Type) {
        Parsed::Done(_, k) => match spec_schema_qualified_name(s, pos + k) {
            Parsed::Done(name, n) => match spec_representation(s, pos + k + n).optional() {
                Parsed::Done(representation, m) => match spec_symbol(s, pos + k + n + m, '(') {
                    Parsed::Done(_, j) => match spec_members(s, pos + k + n + m + j) {
                        Parsed::Done(members, i) => match spec_symbol(
                            s,
                            pos + k + n + m + j + i,
                            ')',
                        ) {
                            Parsed::Done(_, h) => Parsed::Done(
                                UserDefinedTypeDefinitionView(name, representation, members),
                                k + n + m + j + i + h,
                            ),
                            _ => Parsed::Miss,
                        },
                        f => f.cast(),
                    },
                    _ => Parsed::Miss,
                },
                _ => Parsed::Miss,
            },
            _ => Parsed::Miss,
        },
        _ => Parsed::Miss,
    }
}

/// Reads at `pos` what `spec_user_defined_type_definition` describes: the
/// value and the position behind it, or the kind of failure.
pub fn user_defined_type_definition_at(inp: &[char], pos: usize) -> (r: Step<
    UserDefinedTypeDefinition,
>)
    requires
        pos <= inp@.len(),
    ensures
        agrees(r, inp@, pos as int, spec_user_defined_type_definition(inp@, pos as int)),
{
    reveal(spec_user_defined_type_definition);
    let p1 = match two_keywords_at(inp, pos, Keyword::Create, Keyword::Type) {
        Ok((_, p)) => p,
        Err(_) => return Err(ParseError::Error),
    };
    let (name, p2) = match schema_qualified_name_at(inp, p1) {
        Ok(done) => done,
        Err(_) => return Err(ParseError::Error),
    };
    let (representation, p3) = match optional_step(
        inp,
        p2,
        representation_at(inp, p2),
        Ghost(spec_representation(inp@, p2 as int)),
    ) {
        Ok(done) => done,
        Err(_) => return Err(ParseError::Error),
    };
    let p4 = match symbol_at(inp, p3, '(') {
        Ok((_, p)) => p,
        Err(_) => return Err(ParseError::Error),
    };
    let (members, p5) = match members_at(inp, p4) {
        Ok(done) => done,
        Err(e) => return Err(e),
    };
    match symbol_at(inp, p5, ')') {
        Ok((_, end)) => Ok((UserDefinedTypeDefinition(name, representation, List(members)), end)),
        Err(_) => Err(ParseError::Error),
    }
}

/// Parses `CREATE TYPE` at the start of `input`.
pub fn parse_user_defined_type_definition(input: &str) -> (r: Result<
    (&str, UserDefinedTypeDefinition), ParseError,
>)
    ensures
        parsed(r, input@, spec_user_defined_type_definition(input@, 0)),
{
    let chars = chars_of(input);
    let step = user_defined_type_definition_at(chars.as_slice(), 0);
    finish(input, step, Ghost(spec_user_defined_type_definition(input@, 0)))
}

impl Format for Member {
    open spec fn rendered(&self, st: Layout) -> Layout {
        st.append(self.0@)
    }

    fn format<'a>(&self, f: &'a mut Formatter) -> (r: &'a mut Formatter) {
        f.append(self.0.as_str())
    }
}

/// The state behind the first `n` members: each on a line of its own
/// behind four spaces, with a comma behind each but the last.
pub open spec fn render_members(items: Vec<Member>, n: nat, st: Layout) -> Layout
    decreases n,
{
    if n == 0 || n > items@.len() {
        st
    } else if n == 1 {
        items@[0].rendered(st.new_line().indent())
    } else {
        items@[n - 1].rendered(
            render_members(items, (n - 1) as nat, st).append(","@).new_line().indent(),
        )
    }
}

/// `CREATE TYPE`, the name and the representation in one line, separated
/// by single spaces; the members between parentheses, with a field width
/// of four, one per line.
impl Format for UserDefinedTypeDefinition {
    open spec fn rendered(&self, st: Layout) -> Layout {
        let named = self.0.rendered(
            st.append(Keyword::Create.spec_text()).space().append(Keyword::Type.spec_text()).space(),
        );
        let typed = match self.1 {
            Some(t) => t.rendered(named.space().append(Keyword::As.spec_text()).space()),
            None => named,
        };
        render_members(
            self.2.0,
            self.2.0@.len(),
            typed.space().append("("@).set_pad(4),
        ).new_line().append(")"@)
    }

    fn format<'a>(&self, f: &'a mut Formatter) -> (r: &'a mut Formatter) {
        f.append(Keyword::Create.text()).ws().append(Keyword::Type.text()).ws();
        self.0.format(f);
        match &self.1 {
            Some(t) => {
                f.ws().append(Keyword::As.text()).ws();
                t.format(f);
            },
            None => {},
        }
        f.ws().append_str("(").set_pad(4);
        let ghost start = f@;
        let mut i: usize = 0;
        while i < self.2.0.len()
            invariant
                i <= self.2.0.len(),
                f@ == render_members(self.2.0, i as nat, start),
            decreases self.2.0.len() - i,
        {
            if i > 0 {
                f.append_str(",");
            }
            f.new_line().indent_only();
            self.2.0[i].format(f);
            i += 1;
        }
        f.new_line().append_str(")")
    }
}

} // verus!
