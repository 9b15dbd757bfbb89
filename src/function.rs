use vstd::prelude::*;

use crate::text::{decimal_string, decimal_text};
use crate::ty::{ty_text, Ty};

verus! {

/// A generated function item.
pub struct Function {
    /// Keyword modifiers such as `const` or `async`; never rendered.
    pub keyword: Vec<String>,
    /// Lifetime labels, distinct, fixed when the function is created.
    pub lifetimes: Vec<String>,
    /// The session-unique name, without the `fn_` prefix.
    pub name: String,
    pub return_ty: Ty,
    pub args: Vec<Ty>,
    pub body: String,
}

/// The text of one argument at position `i`: `arg_<i>: <Type>, `.
pub open spec fn arg_text(i: nat, t: Ty) -> Seq<char> {
    "arg_"@ + decimal_text(i) + ": "@ + ty_text(t) + ", "@
}

/// The argument list text: every argument in order, each with its trailing
/// comma and space.
pub open spec fn args_text(args: Seq<Ty>) -> Seq<char>
    decreases args.len(),
{
    if args.len() == 0 {
        Seq::empty()
    } else {
        args_text(args.drop_last()) + arg_text((args.len() - 1) as nat, args.last())
    }
}

/// The source text of a function:
/// `fn fn_<name>(<args>) -> <ReturnType> { <body> }`.
pub open spec fn function_text(f: Function) -> Seq<char> {
    "fn fn_"@ + f.name@ + "("@ + args_text(f.args@) + ") -> "@ + ty_text(f.return_ty) + " { "@
        + f.body@ + " }"@
}

/// The string views of a vector of strings.
pub open spec fn string_views(v: Seq<String>) -> Seq<Seq<char>> {
    v.map_values(|s: String| s@)
}

/// Two functions that agree on every field's contents.
pub open spec fn same_function(a: Function, b: Function) -> bool {
    &&& a.keyword@ == b.keyword@
    &&& a.lifetimes@ == b.lifetimes@
    &&& a.name@ == b.name@
    &&& a.return_ty == b.return_ty
    &&& a.args@ == b.args@
    &&& a.body@ == b.body@
}

fn copy_strings(v: &Vec<String>) -> (r: Vec<String>)
    ensures
        r@ == v@,
{
    let mut r: Vec<String> = Vec::new();
    let mut i: usize = 0;
    while i < v.len()
        invariant
            i <= v@.len(),
            r@ == v@.subrange(0, i as int),
        decreases v@.len() - i,
    {
        r.push(v[i].clone());
        i = i + 1;
        assert(r@ =~= v@.subrange(0, i as int));
    }
    assert(r@ =~= v@);
    r
}

fn copy_types(v: &Vec<Ty>) -> (r: Vec<Ty>)
    ensures
        r@ == v@,
{
    let mut r: Vec<Ty> = Vec::new();
    let mut i: usize = 0;
    while i < v.len()
        invariant
            i <= v@.len(),
            r@ == v@.subrange(0, i as int),
        decreases v@.len() - i,
    {
        r.push(v[i]);
        i = i + 1;
        assert(r@ =~= v@.subrange(0, i as int));
    }
    assert(r@ =~= v@);
    r
}

impl Function {
    /// A field-by-field copy.
    pub fn duplicate(&self) -> (r: Function)
        ensures
            same_function(r, *self),
    {
        Function {
            keyword: copy_strings(&self.keyword),
            lifetimes: copy_strings(&self.lifetimes),
            name: self.name.clone(),
            return_ty: self.return_ty,
            args: copy_types(&self.args),
            body: self.body.clone(),
        }
    }

    /// Renders the function as source text. Keyword modifiers and lifetime
    /// labels are not part of the rendering.
    pub fn render(&self) -> (r: String)
        ensures
            r@ == function_text(*self),
    {
        let mut s = String::new();
        s.append("fn fn_");
        s.append(self.name.as_str());
        s.append("(");
        let ghost head = s@;
        let mut i: usize = 0;
        while i < self.args.len()
            invariant
                i <= self.args@.len(),
                s@ == head + args_text(self.args@.subrange(0, i as int)),
            decreases self.args@.len() - i,
        {
            let ghost prev = self.args@.subrange(0, i as int);
            let idx = decimal_string(i);
            s.append("arg_");
            s.append(idx.as_str());
            s.append(": ");
            s.append(self.args[i].as_str());
            s.append(", ");
            proof {
                let next = self.args@.subrange(0, i + 1);
                assert(next.drop_last() =~= prev);
                assert(s@ =~= head + args_text(next));
            }
            i = i + 1;
        }
        assert(self.args@.subrange(0, i as int) =~= self.args@);
        s.append(") -> ");
        s.append(self.return_ty.as_str());
        s.append(" { ");
        s.append(self.body.as_str());
        s.append(" }");
        s
    }
}

} // verus!
