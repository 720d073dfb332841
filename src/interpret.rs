use vstd::prelude::*;

use crate::infer::{annotation_type, gettype, gettype_explicit, literal_type};
use crate::text::text_eq;
use crate::tokenize::views;
use crate::types::{leaf_view, view_opt, PythonType, Setting, SettingModel};

verus! {

/// The first position at or after `from` that holds `w`.
pub open spec fn first_index_of(t: Seq<Seq<char>>, w: Seq<char>, from: int) -> Option<int>
    decreases t.len() - from,
{
    if from < 0 || from >= t.len() {
        None
    } else if t[from] == w {
        Some(from)
    } else {
        first_index_of(t, w, from + 1)
    }
}

/// The parameter that position `i` of a parameter list introduces, if any:
/// a `:` makes a declaration, or a definition when a `=` follows the type;
/// a `=` not after `name: type` makes an assignment. A missing token or a
/// type that cannot be told fails.
pub open spec fn param_at(t: Seq<Seq<char>>, i: int) -> Result<Option<SettingModel>, ()> {
    if t[i] == ":"@ {
        if i + 2 >= t.len() {
            Err(())
        } else if t[i + 2] == "="@ {
            if i + 3 >= t.len() {
                Err(())
            } else {
                match (annotation_type(t[i + 1]), literal_type(t[i + 3])) {
                    (Ok(a), Ok(v)) => Ok(Some(SettingModel::VariableDefinition(t[i - 1], a, v))),
                    _ => Err(()),
                }
            }
        } else {
            match annotation_type(t[i + 1]) {
                Ok(a) => Ok(Some(SettingModel::VariableDeclaration(t[i - 1], a))),
                Err(_) => Err(()),
            }
        }
    } else if t[i] == "="@ && t[i - 2] != ":"@ {
        if i + 1 >= t.len() {
            Err(())
        } else {
            match literal_type(t[i + 1]) {
                Ok(v) => Ok(Some(SettingModel::Assignment(t[i - 1], v))),
                Err(_) => Err(()),
            }
        }
    } else {
        Ok(None)
    }
}

/// The parameters from position `i` up to the closing `)`.
pub open spec fn params_from(t: Seq<Seq<char>>, i: int) -> Result<Seq<SettingModel>, ()>
    decreases t.len() - i,
{
    if i < 0 || i >= t.len() {
        Err(())
    } else if t[i] == ")"@ {
        Ok(Seq::empty())
    } else {
        match (param_at(t, i), params_from(t, i + 1)) {
            (Ok(Some(p)), Ok(rest)) => Ok(seq![p] + rest),
            (Ok(None), Ok(rest)) => Ok(rest),
            _ => Err(()),
        }
    }
}

/// The return type: the token before the last, where `->` precedes it.
pub open spec fn return_type(t: Seq<Seq<char>>) -> Result<Option<PythonType>, ()> {
    if t.len() < 3 {
        Err(())
    } else if t[t.len() - 3] == "->"@ {
        match annotation_type(t[t.len() - 2]) {
            Ok(a) => Ok(Some(a)),
            Err(_) => Err(()),
        }
    } else {
        Ok(None)
    }
}

/// The statement that a line's tokens make, if they make one.
pub open spec fn statement_of(t: Seq<Seq<char>>) -> Option<SettingModel> {
    if t.len() > 0 && t[0] == "def"@ {
        match first_index_of(t, "("@, 0) {
            Some(p) => match (params_from(t, p + 1), return_type(t)) {
                (Ok(ps), Ok(r)) => Some(SettingModel::FunctionDefinition(t[1], ps, r)),
                _ => None,
            },
            None => None,
        }
    } else if t.len() > 4 && t[1] == ":"@ && t[3] == "="@ {
        match (annotation_type(t[2]), literal_type(t[4])) {
            (Ok(a), Ok(v)) => Some(SettingModel::VariableDefinition(t[0], a, v)),
            _ => None,
        }
    } else if t.len() > 2 && t[1] == "="@ {
        match literal_type(t[2]) {
            Ok(v) => Some(SettingModel::Assignment(t[0], v)),
            Err(_) => None,
        }
    } else {
        None
    }
}

fn tok_is(tokens: &Vec<String>, i: usize, w: &str) -> (r: bool)
    requires
        i < tokens.len(),
    ensures
        r == (tokens@[i as int]@ == w@),
{
    text_eq(tokens[i].as_str(), w)
}

fn position_of(tokens: &Vec<String>, w: &str) -> (r: Option<usize>)
    ensures
        match first_index_of(views(tokens@), w@, 0) {
            Some(p) => r == Some(p as usize),
            None => r is None,
        },
{
    let ghost t = views(tokens@);
    let mut i: usize = 0;
    while i < tokens.len()
        invariant
            t == views(tokens@),
            i <= tokens.len(),
            first_index_of(t, w@, 0) == first_index_of(t, w@, i as int),
        decreases tokens.len() - i,
    {
        if tok_is(tokens, i, w) {
            return Some(i);
        }
        i = i + 1;
    }
    None
}

fn param(tokens: &Vec<String>, i: usize) -> (r: Result<Option<Setting>, ()>)
    requires
        2 <= i < tokens.len(),
    ensures
        match r {
            Ok(o) => param_at(views(tokens@), i as int) == Ok::<Option<SettingModel>, ()>(
                view_opt(o),
            ) && (o matches Some(s) ==> !(s is FunctionDefinition)),
            Err(_) => param_at(views(tokens@), i as int) is Err,
        },
{
    let n = tokens.len();
    if tok_is(tokens, i, ":") {
        if n - i <= 2 {
            Err(())
        } else if tok_is(tokens, i + 2, "=") {
            if n - i <= 3 {
                return Err(());
            }
            match (gettype_explicit(tokens[i + 1].as_str()), gettype(tokens[i + 3].as_str())) {
                (Ok(a), Ok(v)) => Ok(Some(Setting::VariableDefinition(tokens[i - 1].clone(), a, v))),
                _ => Err(()),
            }
        } else {
            match gettype_explicit(tokens[i + 1].as_str()) {
                Ok(a) => Ok(Some(Setting::VariableDeclaration(tokens[i - 1].clone(), a))),
                Err(_) => Err(()),
            }
        }
    } else if tok_is(tokens, i, "=") && !tok_is(tokens, i - 2, ":") {
        if n - i <= 1 {
            return Err(());
        }
        match gettype(tokens[i + 1].as_str()) {
            Ok(v) => Ok(Some(Setting::Assignment(tokens[i - 1].clone(), v))),
            Err(_) => Err(()),
        }
    } else {
        Ok(None)
    }
}

proof fn lemma_first_index_of(t: Seq<Seq<char>>, w: Seq<char>, from: int)
    ensures
        first_index_of(t, w, from) matches Some(p) ==> from <= p < t.len() && t[p] == w,
    decreases t.len() - from,
{
    if 0 <= from < t.len() && t[from] != w {
        lemma_first_index_of(t, w, from + 1);
    }
}

fn ret_type(tokens: &Vec<String>) -> (r: Result<Option<PythonType>, ()>)
    ensures
        r == return_type(views(tokens@)),
{
    let n = tokens.len();
    if n < 3 {
        Err(())
    } else if tok_is(tokens, n - 3, "->") {
        match gettype_explicit(tokens[n - 2].as_str()) {
            Ok(a) => Ok(Some(a)),
            Err(_) => Err(()),
        }
    } else {
        Ok(None)
    }
}

fn function_definition(tokens: &Vec<String>) -> (r: Option<Setting>)
    requires
        tokens.len() > 0,
        views(tokens@)[0] == "def"@,
    ensures
        view_opt(r) == statement_of(views(tokens@)),
{
    let ghost t = views(tokens@);
    let n = tokens.len();
    let p = match position_of(tokens, "(") {
        Some(p) => p,
        None => return None,
    };
    proof {
        lemma_first_index_of(t, "("@, 0);
        reveal_strlit("def");
        reveal_strlit("(");
        assert(t[0].len() != t[p as int].len());
    }
    let ghost start = p + 1;
    let mut args: Vec<Setting> = Vec::new();
    let mut i: usize = p + 1;
    while i < n
        invariant
            t == views(tokens@),
            n == tokens.len(),
            t.len() > 0,
            t[0] == "def"@,
            first_index_of(t, "("@, 0) == Some(p as int),
            start == p + 1,
            2 <= start <= i,
            forall|k: int| 0 <= k < args.len() ==> !(args@[k] is FunctionDefinition),
            params_from(t, start) == match params_from(t, i as int) {
                Ok(rest) => Ok(args@.map_values(|a: Setting| leaf_view(a)) + rest),
                Err(_) => Err::<Seq<SettingModel>, ()>(()),
            },
        decreases n - i,
    {
        if tok_is(tokens, i, ")") {
            assert(args@.map_values(|a: Setting| leaf_view(a)) + Seq::empty() =~= args@.map_values(
                |a: Setting| leaf_view(a),
            ));
            return match ret_type(tokens) {
                Ok(rt) => Some(Setting::FunctionDefinition(tokens[1].clone(), args, rt)),
                Err(_) => None,
            };
        }
        match param(tokens, i) {
            Ok(Some(s)) => {
                let ghost before = args@;
                args.push(s);
                proof {
                    let f = |a: Setting| leaf_view(a);
                    assert(args@.map_values(f) =~= before.map_values(f).push(s@));
                    if let Ok(rest) = params_from(t, i + 1) {
                        assert(before.map_values(f) + (seq![s@] + rest) =~= args@.map_values(f)
                            + rest);
                    }
                }
            },
            Ok(None) => {},
            Err(_) => {
                return None;
            },
        }
        i = i + 1;
    }
    None
}

/// Recognises the statement that a line's tokens make: a function
/// definition, `name: type = value`, or `name = value`. Tokens of another
/// shape, and a statement whose parts cannot all be typed, give `None`.
pub fn interpret(tokens: Vec<String>) -> (r: Option<Setting>)
    ensures
        view_opt(r) == statement_of(views(tokens@)),
{
    let n = tokens.len();
    if n > 0 && tok_is(&tokens, 0, "def") {
        function_definition(&tokens)
    } else if n > 4 && tok_is(&tokens, 1, ":") && tok_is(&tokens, 3, "=") {
        match (gettype_explicit(tokens[2].as_str()), gettype(tokens[4].as_str())) {
            (Ok(a), Ok(v)) => Some(Setting::VariableDefinition(tokens[0].clone(), a, v)),
            _ => None,
        }
    } else if n > 2 && tok_is(&tokens, 1, "=") {
        match gettype(tokens[2].as_str()) {
            Ok(v) => Some(Setting::Assignment(tokens[0].clone(), v)),
            Err(_) => None,
        }
    } else {
        None
    }
}

} // verus!
