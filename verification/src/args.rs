//! The command-line grammar: four required flags, each a name token
//! followed by a value token, in any order, each given exactly once.
//!
//! `-p`/`--prompt` and `-m`/`--model` take any text; `-t`/`--temperature`
//! takes a decimal number, kept as its text; `-x`/`--max_tokens` takes an
//! unsigned integer that must fit in `usize`.

use vstd::prelude::*;

use crate::errors::{ArgError, Flag};
use crate::numbers::{check_number_text, is_number_text, is_uint_text, parse_usize_text, uint_of};

verus! {

/// The generation parameters of one request, as the user supplied them.
/// `temperature` keeps the decimal text of the flag value, so that the
/// request body can carry the number unchanged.
#[derive(Debug)]
pub struct RequestDescriptor {
    pub prompt: String,
    pub model: String,
    pub temperature: String,
    pub max_tokens: usize,
}

/// The mathematical content of a [`RequestDescriptor`].
pub ghost struct DescView {
    pub prompt: Seq<char>,
    pub model: Seq<char>,
    pub temperature: Seq<char>,
    pub max_tokens: nat,
}

impl View for RequestDescriptor {
    type V = DescView;

    open spec fn view(&self) -> DescView {
        DescView {
            prompt: self.prompt@,
            model: self.model@,
            temperature: self.temperature@,
            max_tokens: self.max_tokens as nat,
        }
    }
}

impl RequestDescriptor {
    /// The temperature text denotes a number, so the request body built
    /// from this descriptor is well-formed JSON.
    pub open spec fn wf(&self) -> bool {
        is_number_text(self.temperature@)
    }
}

/// The flag named by the token `t`, if any.
pub open spec fn flag_of(t: Seq<char>) -> Option<Flag> {
    if t == "-p"@ || t == "--prompt"@ {
        Some(Flag::Prompt)
    } else if t == "-m"@ || t == "--model"@ {
        Some(Flag::Model)
    } else if t == "-t"@ || t == "--temperature"@ {
        Some(Flag::Temperature)
    } else if t == "-x"@ || t == "--max_tokens"@ {
        Some(Flag::MaxTokens)
    } else {
        None
    }
}

/// The flag values gathered while scanning the command line.
pub ghost struct Gathered {
    pub prompt: Option<Seq<char>>,
    pub model: Option<Seq<char>>,
    pub temperature: Option<Seq<char>>,
    pub max_tokens: Option<Seq<char>>,
}

impl Gathered {
    /// No flag seen yet.
    pub open spec fn empty() -> Gathered {
        Gathered { prompt: None, model: None, temperature: None, max_tokens: None }
    }

    /// The value gathered so far for `f`.
    pub open spec fn get(self, f: Flag) -> Option<Seq<char>> {
        match f {
            Flag::Prompt => self.prompt,
            Flag::Model => self.model,
            Flag::Temperature => self.temperature,
            Flag::MaxTokens => self.max_tokens,
        }
    }

    /// This record with `v` gathered for `f`.
    pub open spec fn set(self, f: Flag, v: Seq<char>) -> Gathered {
        match f {
            Flag::Prompt => Gathered {
                prompt: Some(v),
                model: self.model,
                temperature: self.temperature,
                max_tokens: self.max_tokens,
            },
            Flag::Model => Gathered {
                prompt: self.prompt,
                model: Some(v),
                temperature: self.temperature,
                max_tokens: self.max_tokens,
            },
            Flag::Temperature => Gathered {
                prompt: self.prompt,
                model: self.model,
                temperature: Some(v),
                max_tokens: self.max_tokens,
            },
            Flag::MaxTokens => Gathered {
                prompt: self.prompt,
                model: self.model,
                temperature: self.temperature,
                max_tokens: Some(v),
            },
        }
    }
}

/// Scans the tokens from position `i`: a flag name, then its value,
/// repeated to the end. Stops at the first unknown token, flag without a
/// value, or repeated flag.
pub open spec fn scan(args: Seq<Seq<char>>, i: int, st: Gathered) -> Result<Gathered, ArgError>
    decreases args.len() - i
    when 0 <= i <= args.len()
{
    if i == args.len() {
        Ok(st)
    } else {
        match flag_of(args[i]) {
            None => Err(ArgError::UnknownFlag),
            Some(f) => {
                if i + 1 == args.len() {
                    Err(ArgError::MissingValue(f))
                } else if st.get(f) is Some {
                    Err(ArgError::RepeatedFlag(f))
                } else {
                    scan(args, i + 2, st.set(f, args[i + 1]))
                }
            },
        }
    }
}

/// What the whole command line denotes: the descriptor, or the first
/// error. Token errors are found left to right; then a missing flag is
/// reported, in the order prompt, model, temperature, max_tokens; then a
/// value of the wrong type, in the same order.
pub open spec fn parse_spec(args: Seq<Seq<char>>) -> Result<DescView, ArgError> {
    match scan(args, 0, Gathered::empty()) {
        Err(e) => Err(e),
        Ok(st) => {
            if st.prompt is None {
                Err(ArgError::MissingFlag(Flag::Prompt))
            } else if st.model is None {
                Err(ArgError::MissingFlag(Flag::Model))
            } else if st.temperature is None {
                Err(ArgError::MissingFlag(Flag::Temperature))
            } else if st.max_tokens is None {
                Err(ArgError::MissingFlag(Flag::MaxTokens))
            } else if !is_number_text(st.temperature->Some_0) {
                Err(ArgError::BadValue(Flag::Temperature))
            } else if !(is_uint_text(st.max_tokens->Some_0) && uint_of(st.max_tokens->Some_0)
                <= usize::MAX) {
                Err(ArgError::BadValue(Flag::MaxTokens))
            } else {
                Ok(
                    DescView {
                        prompt: st.prompt->Some_0,
                        model: st.model->Some_0,
                        temperature: st.temperature->Some_0,
                        max_tokens: uint_of(st.max_tokens->Some_0),
                    },
                )
            }
        },
    }
}

/// The view of an optional owned string.
spec fn view_opt(o: Option<String>) -> Option<Seq<char>> {
    match o {
        Some(s) => Some(s@),
        None => None,
    }
}

/// Character-by-character string equality.
fn str_eq(a: &str, b: &str) -> (r: bool)
    ensures
        r == (a@ == b@),
{
    let n = a.unicode_len();
    if n != b.unicode_len() {
        return false;
    }
    let mut i: usize = 0;
    while i < n
        invariant
            0 <= i <= n,
            n == a@.len(),
            n == b@.len(),
            forall|j: int| 0 <= j < i ==> a@[j] == b@[j],
        decreases n - i,
    {
        if a.get_char(i) != b.get_char(i) {
            return false;
        }
        i += 1;
    }
    proof {
        assert(a@ =~= b@);
    }
    true
}

/// The flag named by the token `t`, if any.
fn flag_of_token(t: &str) -> (r: Option<Flag>)
    ensures
        r == flag_of(t@),
{
    if str_eq(t, "-p") || str_eq(t, "--prompt") {
        Some(Flag::Prompt)
    } else if str_eq(t, "-m") || str_eq(t, "--model") {
        Some(Flag::Model)
    } else if str_eq(t, "-t") || str_eq(t, "--temperature") {
        Some(Flag::Temperature)
    } else if str_eq(t, "-x") || str_eq(t, "--max_tokens") {
        Some(Flag::MaxTokens)
    } else {
        None
    }
}

/// Parses the command-line tokens (the program name already removed) into
/// a request descriptor.
///
/// The result is exactly what [`parse_spec`] denotes for the tokens: the
/// descriptor's fields are the supplied values, or the first error in the
/// order that `parse_spec` fixes.
pub fn parse_arguments(args: &Vec<String>) -> (r: Result<RequestDescriptor, ArgError>)
    ensures
        match r {
            Ok(d) => parse_spec(args.deep_view()) == Ok::<DescView, ArgError>(d@),
            Err(e) => parse_spec(args.deep_view()) == Err::<DescView, ArgError>(e),
        },
        r matches Ok(d) ==> d.wf(),
{
    let ghost argv: Seq<Seq<char>> = args.deep_view();
    let n = args.len();
    let mut prompt: Option<String> = None;
    let mut model: Option<String> = None;
    let mut temperature: Option<String> = None;
    let mut max_tokens_text: Option<String> = None;
    let mut i: usize = 0;
    while i < n
        invariant
            0 <= i <= n,
            n == argv.len(),
            argv == args.deep_view(),
            scan(argv, 0, Gathered::empty()) == scan(
                argv,
                i as int,
                Gathered {
                    prompt: view_opt(prompt),
                    model: view_opt(model),
                    temperature: view_opt(temperature),
                    max_tokens: view_opt(max_tokens_text),
                },
            ),
        decreases n - i,
    {
        proof {
            assert(argv[i as int] == args@[i as int]@);
        }
        let fo = flag_of_token(args[i].as_str());
        match fo {
            None => {
                return Err(ArgError::UnknownFlag);
            },
            Some(f) => {
                if i + 1 >= n {
                    return Err(ArgError::MissingValue(f));
                }
                proof {
                    assert(argv[i as int + 1] == args@[i as int + 1]@);
                }
                let val = args[i + 1].clone();
                match f {
                    Flag::Prompt => {
                        if prompt.is_some() {
                            return Err(ArgError::RepeatedFlag(f));
                        }
                        prompt = Some(val);
                    },
                    Flag::Model => {
                        if model.is_some() {
                            return Err(ArgError::RepeatedFlag(f));
                        }
                        model = Some(val);
                    },
                    Flag::Temperature => {
                        if temperature.is_some() {
                            return Err(ArgError::RepeatedFlag(f));
                        }
                        temperature = Some(val);
                    },
                    Flag::MaxTokens => {
                        if max_tokens_text.is_some() {
                            return Err(ArgError::RepeatedFlag(f));
                        }
                        max_tokens_text = Some(val);
                    },
                }
                i += 2;
            },
        }
    }
    let prompt_s = match prompt {
        Some(s) => s,
        None => {
            return Err(ArgError::MissingFlag(Flag::Prompt));
        },
    };
    let model_s = match model {
        Some(s) => s,
        None => {
            return Err(ArgError::MissingFlag(Flag::Model));
        },
    };
    let temperature_s = match temperature {
        Some(s) => s,
        None => {
            return Err(ArgError::MissingFlag(Flag::Temperature));
        },
    };
    let max_tokens_s = match max_tokens_text {
        Some(s) => s,
        None => {
            return Err(ArgError::MissingFlag(Flag::MaxTokens));
        },
    };
    if !check_number_text(temperature_s.as_str()) {
        return Err(ArgError::BadValue(Flag::Temperature));
    }
    let max_tokens: usize = match parse_usize_text(max_tokens_s.as_str()) {
        Some(v) => v,
        None => {
            return Err(ArgError::BadValue(Flag::MaxTokens));
        },
    };
    Ok(
        RequestDescriptor {
            prompt: prompt_s,
            model: model_s,
            temperature: temperature_s,
            max_tokens,
        },
    )
}

/// Among four flag tokens naming four distinct flags, the value that
/// follows the one naming `fl`.
pub open spec fn value_for(
    fl: Flag,
    f1: Seq<char>,
    v1: Seq<char>,
    f2: Seq<char>,
    v2: Seq<char>,
    f3: Seq<char>,
    v3: Seq<char>,
    f4: Seq<char>,
    v4: Seq<char>,
) -> Seq<char> {
    if flag_of(f1) == Some(fl) {
        v1
    } else if flag_of(f2) == Some(fl) {
        v2
    } else if flag_of(f3) == Some(fl) {
        v3
    } else {
        v4
    }
}

/// For every valid flag combination — the four flags in any order and
/// under either spelling, each followed by its value — the parsed
/// descriptor's fields are exactly the supplied values: parsing changes
/// nothing beyond reading `max_tokens` as a number.
pub proof fn lemma_parse_identity(
    f1: Seq<char>,
    v1: Seq<char>,
    f2: Seq<char>,
    v2: Seq<char>,
    f3: Seq<char>,
    v3: Seq<char>,
    f4: Seq<char>,
    v4: Seq<char>,
)
    requires
        flag_of(f1) is Some,
        flag_of(f2) is Some,
        flag_of(f3) is Some,
        flag_of(f4) is Some,
        flag_of(f1) != flag_of(f2),
        flag_of(f1) != flag_of(f3),
        flag_of(f1) != flag_of(f4),
        flag_of(f2) != flag_of(f3),
        flag_of(f2) != flag_of(f4),
        flag_of(f3) != flag_of(f4),
        is_number_text(value_for(Flag::Temperature, f1, v1, f2, v2, f3, v3, f4, v4)),
        is_uint_text(value_for(Flag::MaxTokens, f1, v1, f2, v2, f3, v3, f4, v4)),
        uint_of(value_for(Flag::MaxTokens, f1, v1, f2, v2, f3, v3, f4, v4)) <= usize::MAX,
    ensures
        parse_spec(seq![f1, v1, f2, v2, f3, v3, f4, v4]) == Ok::<DescView, ArgError>(
            DescView {
                prompt: value_for(Flag::Prompt, f1, v1, f2, v2, f3, v3, f4, v4),
                model: value_for(Flag::Model, f1, v1, f2, v2, f3, v3, f4, v4),
                temperature: value_for(Flag::Temperature, f1, v1, f2, v2, f3, v3, f4, v4),
                max_tokens: uint_of(value_for(Flag::MaxTokens, f1, v1, f2, v2, f3, v3, f4, v4)),
            },
        ),
{
    let args = seq![f1, v1, f2, v2, f3, v3, f4, v4];
    assert(args.len() == 8);
    let g0 = Gathered::empty();
    let g1 = g0.set(flag_of(f1)->Some_0, v1);
    let g2 = g1.set(flag_of(f2)->Some_0, v2);
    let g3 = g2.set(flag_of(f3)->Some_0, v3);
    let g4 = g3.set(flag_of(f4)->Some_0, v4);
    assert(scan(args, 0, g0) == scan(args, 2, g1));
    assert(scan(args, 2, g1) == scan(args, 4, g2));
    assert(scan(args, 4, g2) == scan(args, 6, g3));
    assert(scan(args, 6, g3) == scan(args, 8, g4));
    assert(scan(args, 8, g4) == Ok::<Gathered, ArgError>(g4));
}

/// The identity law at the long flags in their natural order.
pub proof fn lemma_parse_identity_long_flags(p: Seq<char>, m: Seq<char>, t: Seq<char>, x: Seq<char>)
    requires
        is_number_text(t),
        is_uint_text(x),
        uint_of(x) <= usize::MAX,
    ensures
        parse_spec(seq!["--prompt"@, p, "--model"@, m, "--temperature"@, t, "--max_tokens"@, x])
            == Ok::<DescView, ArgError>(
            DescView { prompt: p, model: m, temperature: t, max_tokens: uint_of(x) },
        ),
{
    reveal_strlit("-p");
    reveal_strlit("--prompt");
    reveal_strlit("-m");
    reveal_strlit("--model");
    reveal_strlit("-t");
    reveal_strlit("--temperature");
    reveal_strlit("-x");
    reveal_strlit("--max_tokens");
    let args = seq!["--prompt"@, p, "--model"@, m, "--temperature"@, t, "--max_tokens"@, x];
    assert(args.len() == 8);
    assert("-p"@.len() == 2);
    assert("--prompt"@.len() == 8);
    assert("-m"@.len() == 2);
    assert("--model"@.len() == 7);
    assert("-t"@.len() == 2);
    assert("--temperature"@.len() == 13);
    assert("-x"@.len() == 2);
    assert("--max_tokens"@.len() == 12);
    assert(flag_of(args[0]) == Some(Flag::Prompt));
    assert(flag_of(args[2]) == Some(Flag::Model));
    assert(flag_of(args[4]) == Some(Flag::Temperature));
    assert(flag_of(args[6]) == Some(Flag::MaxTokens));
    lemma_parse_identity("--prompt"@, p, "--model"@, m, "--temperature"@, t, "--max_tokens"@, x);
}

} // verus!
