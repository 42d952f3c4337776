//! The data handed to the code-generation front end: cased identifiers
//! bound to generated class names, documentation text for them, and the
//! build-time diagnostic rendered when a step upstream fails.

use vstd::prelude::*;

use convert_case::Casing;

verus! {

/// What `convert_case` produces for a string in SCREAMING_SNAKE case.
pub uninterp spec fn screaming_snake_of(s: Seq<char>) -> Seq<char>;

/// Relies on `convert_case`'s `Casing::to_case` with
/// `Case::ScreamingSnake`: the result depends on the input characters alone.
#[verifier::external_body]
fn to_screaming_snake(s: &String) -> (r: String)
    ensures
        r@ == screaming_snake_of(s@),
{
    s.as_str().to_case(convert_case::Case::ScreamingSnake)
}

/// What `convert_case` produces for a string in snake case.
pub uninterp spec fn snake_of(s: Seq<char>) -> Seq<char>;

/// Relies on `convert_case`'s `Casing::to_case` with `Case::Snake`: the
/// result depends on the input characters alone.
#[verifier::external_body]
fn to_snake(s: &String) -> (r: String)
    ensures
        r@ == snake_of(s@),
{
    s.as_str().to_case(convert_case::Case::Snake)
}

/// What `str::to_uppercase` produces for a string.
pub uninterp spec fn upper_of(s: Seq<char>) -> Seq<char>;

/// Relies on `str::to_uppercase`: the result depends on the input
/// characters alone.
#[verifier::external_body]
fn to_upper(s: &String) -> (r: String)
    ensures
        r@ == upper_of(s@),
{
    s.as_str().to_uppercase()
}

/// The constant identifier derived from an original class name.
pub open spec fn spec_const_ident(name: Seq<char>) -> Seq<char> {
    upper_of(screaming_snake_of(name))
}

/// The field identifier derived from an original class name.
pub open spec fn spec_field_ident(name: Seq<char>) -> Seq<char> {
    snake_of(name)
}

/// Two class names turn into the same identifier after the casing
/// transform; such a collision is a build failure, never a silent merge.
#[derive(Debug, Clone)]
pub struct ClassNameCollision {
    pub ident: String,
}

impl ClassNameCollision {
    /// The top-level description of this error.
    pub fn message(&self) -> (r: String)
        ensures
            r@ == "class names collide after the casing transform: "@ + self.ident@,
    {
        let mut m = "class names collide after the casing transform: ".to_owned();
        m.append(self.ident.as_str());
        m
    }
}

/// Pairs each generated identifier with the replacement class name it is
/// bound to, after checking the identifiers for pairwise distinctness.
fn cased_entries(idents: Vec<String>, values: &Vec<(String, String)>) -> (r: Result<
    Vec<(String, String)>,
    ClassNameCollision,
>)
    requires
        idents@.len() == values@.len(),
    ensures
        r matches Ok(v) ==> {
            &&& v@.len() == values@.len()
            &&& forall|i: int| 0 <= i < v@.len() ==> v@[i].0 == idents@[i] && v@[i].1@
                == values@[i].1@
            &&& forall|i: int, j: int| 0 <= i < j < v@.len() ==> v@[i].0@ != v@[j].0@
        },
        r matches Err(e) ==> exists|i: int, j: int|
            0 <= i < j < idents@.len() && idents@[i]@ == idents@[j]@ && e.ident@ == idents@[j]@,
{
    let n = idents.len();
    let mut out: Vec<(String, String)> = Vec::new();
    for k in 0..n
        invariant
            n == idents@.len() == values@.len(),
            out@.len() == k,
            forall|i: int| #![trigger out@[i]] 0 <= i < k ==> out@[i].0 == idents@[i] && out@[i].1@
                == values@[i].1@,
            forall|i: int, j: int| 0 <= i < j < k ==> idents@[i]@ != idents@[j]@,
    {
        let ident = idents[k].clone();
        let mut dup = false;
        for i in 0..k
            invariant
                n == idents@.len() == values@.len(),
                k < n,
                ident == idents@[k as int],
                dup <==> exists|j: int| 0 <= j < i && idents@[j]@ == ident@,
        {
            if idents[i] == ident {
                proof {
                    assert(idents@[i as int]@ == ident@);
                }
                dup = true;
            }
        }
        if dup {
            proof {
                let j = choose|j: int| 0 <= j < k && idents@[j]@ == ident@;
                assert(0 <= j < k as int && idents@[j]@ == idents@[k as int]@);
            }
            return Err(ClassNameCollision { ident });
        }
        out.push((ident, values[k].1.clone()));
    }
    Ok(out)
}

/// One identifier in SCREAMING_SNAKE case per original class name, bound to
/// its replacement class name; input order is kept. Names that collide
/// after the transform are reported as an error naming the shared
/// identifier.
pub fn class_constants(classes: &Vec<(String, String)>) -> (r: Result<
    Vec<(String, String)>,
    ClassNameCollision,
>)
    ensures
        r matches Ok(v) ==> {
            &&& v@.len() == classes@.len()
            &&& forall|i: int| 0 <= i < v@.len() ==> v@[i].0@ == spec_const_ident(classes@[i].0@)
                && v@[i].1@ == classes@[i].1@
            &&& forall|i: int, j: int| 0 <= i < j < v@.len() ==> v@[i].0@ != v@[j].0@
        },
        r matches Err(e) ==> exists|i: int, j: int|
            0 <= i < j < classes@.len() && spec_const_ident(classes@[i].0@) == spec_const_ident(
                classes@[j].0@,
            ) && e.ident@ == spec_const_ident(classes@[j].0@),
{
    let mut idents: Vec<String> = Vec::new();
    for k in 0..classes.len()
        invariant
            idents@.len() == k,
            forall|i: int| 0 <= i < k ==> idents@[i]@ == spec_const_ident(classes@[i].0@),
    {
        let snake = to_screaming_snake(&classes[k].0);
        idents.push(to_upper(&snake));
    }
    let r = cased_entries(idents, classes);
    proof {
        match &r {
            Ok(v) => {
                assert forall|i: int| 0 <= i < v@.len() implies v@[i].0@ == spec_const_ident(
                    classes@[i].0@,
                ) && v@[i].1@ == classes@[i].1@ by {
                    assert(v@[i].0 == idents@[i]);
                }
            }
            Err(e) => {
                let (i, j) = choose|i: int, j: int|
                    0 <= i < j < idents@.len() && idents@[i]@ == idents@[j]@ && e.ident@
                        == idents@[j]@;
                assert(spec_const_ident(classes@[i].0@) == spec_const_ident(classes@[j].0@));
            }
        }
    }
    r
}

/// One identifier in snake case per original class name, bound to its
/// replacement class name; input order is kept. Names that collide after
/// the transform are reported as an error naming the shared identifier.
pub fn class_fields(classes: &Vec<(String, String)>) -> (r: Result<
    Vec<(String, String)>,
    ClassNameCollision,
>)
    ensures
        r matches Ok(v) ==> {
            &&& v@.len() == classes@.len()
            &&& forall|i: int| 0 <= i < v@.len() ==> v@[i].0@ == spec_field_ident(classes@[i].0@)
                && v@[i].1@ == classes@[i].1@
            &&& forall|i: int, j: int| 0 <= i < j < v@.len() ==> v@[i].0@ != v@[j].0@
        },
        r matches Err(e) ==> exists|i: int, j: int|
            0 <= i < j < classes@.len() && spec_field_ident(classes@[i].0@) == spec_field_ident(
                classes@[j].0@,
            ) && e.ident@ == spec_field_ident(classes@[j].0@),
{
    let mut idents: Vec<String> = Vec::new();
    for k in 0..classes.len()
        invariant
            idents@.len() == k,
            forall|i: int| 0 <= i < k ==> idents@[i]@ == spec_field_ident(classes@[i].0@),
    {
        idents.push(to_snake(&classes[k].0));
    }
    let r = cased_entries(idents, classes);
    proof {
        match &r {
            Ok(v) => {
                assert forall|i: int| 0 <= i < v@.len() implies v@[i].0@ == spec_field_ident(
                    classes@[i].0@,
                ) && v@[i].1@ == classes@[i].1@ by {
                    assert(v@[i].0 == idents@[i]);
                }
            }
            Err(e) => {
                let (i, j) = choose|i: int, j: int|
                    0 <= i < j < idents@.len() && idents@[i]@ == idents@[j]@ && e.ident@
                        == idents@[j]@;
                assert(spec_field_ident(classes@[i].0@) == spec_field_ident(classes@[j].0@));
            }
        }
    }
    r
}

/// The documentation text for the first `n` identifier bindings: one line
/// `IDENT = "value"` per binding, in order.
pub open spec fn spec_binding_doc(entries: Seq<(String, String)>, n: int) -> Seq<char>
    decreases n,
{
    if n <= 0 {
        Seq::empty()
    } else {
        spec_binding_doc(entries, n - 1) + entries[n - 1].0@ + " = \""@ + entries[n - 1].1@
            + "\"\n"@
    }
}

/// Renders the documentation text for a list of identifier bindings.
pub fn binding_doc(entries: &Vec<(String, String)>) -> (r: String)
    ensures
        r@ == spec_binding_doc(entries@, entries@.len() as int),
{
    let mut doc = String::new();
    for k in 0..entries.len()
        invariant
            doc@ == spec_binding_doc(entries@, k as int),
    {
        doc.append(entries[k].0.as_str());
        doc.append(" = \"");
        doc.append(entries[k].1.as_str());
        doc.append("\"\n");
    }
    doc
}

/// The cause lines of a diagnostic: each cause indented on its own line,
/// in order, outermost cause first.
pub open spec fn spec_cause_lines(causes: Seq<String>, n: int) -> Seq<char>
    decreases n,
{
    if n <= 0 {
        Seq::empty()
    } else {
        spec_cause_lines(causes, n - 1) + "\n    "@ + causes[n - 1]@
    }
}

/// The full build-time diagnostic for a failure: the top-level message,
/// then the complete chain of underlying causes, each on its own line.
pub open spec fn spec_diagnostic(message: Seq<char>, causes: Seq<String>) -> Seq<char> {
    "Error: "@ + message + if causes.len() == 0 {
        Seq::<char>::empty()
    } else {
        "\nCaused by:"@ + spec_cause_lines(causes, causes.len() as int)
    }
}

/// Renders the build-time diagnostic for a failed step: the top-level
/// message first, then every underlying cause on its own indented line, so
/// the developer sees which upstream step failed and why.
pub fn render_diagnostic(message: &String, causes: &Vec<String>) -> (r: String)
    ensures
        r@ == spec_diagnostic(message@, causes@),
{
    let mut out = "Error: ".to_owned();
    out.append(message.as_str());
    if causes.len() > 0 {
        out.append("\nCaused by:");
        for k in 0..causes.len()
            invariant
                causes@.len() > 0,
                out@ == "Error: "@ + message@ + "\nCaused by:"@ + spec_cause_lines(
                    causes@,
                    k as int,
                ),
        {
            out.append("\n    ");
            out.append(causes[k].as_str());
        }
    }
    out
}

} // verus!
