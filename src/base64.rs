//! Test cases for a base64 utility: the bytes fed on standard input and the options
//! on the command line, with the generator and the mutators that make them.
use vstd::prelude::*;

use crate::capture::{capture_text, vec_string_mapper};
use crate::text::{bytes_to_vec, push_signed_decimal, signed_decimal};

verus! {

/// One test case: standard input and the command-line options.
#[derive(Clone, Debug)]
pub struct Base64Input {
    pub input: Vec<u8>,
    pub decode: bool,
    pub ignore_garbage: bool,
    pub wrap: Option<i8>,
}

/// The view of a list of strings.
pub open spec fn texts(v: Seq<String>) -> Seq<Seq<char>> {
    v.map_values(|s: String| s@)
}

/// The arguments of a test case: `-d`, `-i`, then `-w` and the wrap width.
pub open spec fn args_of(decode: bool, ignore_garbage: bool, wrap: Option<i8>) -> Seq<Seq<char>> {
    (if decode {
        seq!["-d"@]
    } else {
        seq![]
    }) + (if ignore_garbage {
        seq!["-i"@]
    } else {
        seq![]
    }) + match wrap {
        Some(w) => seq!["-w"@, signed_decimal(w as int)],
        None => seq![],
    }
}

/// The one-line description of a test case.
pub open spec fn description_of(
    input: Seq<u8>,
    decode: bool,
    ignore_garbage: bool,
    wrap: Option<i8>,
) -> Seq<char> {
    "input: '"@ + capture_text(Some(input)) + "'"@ + (if decode {
        ", decode"@
    } else {
        ""@
    }) + (if ignore_garbage {
        ", ignore_garbage"@
    } else {
        ""@
    }) + match wrap {
        Some(w) => ", wrap: "@ + signed_decimal(w as int),
        None => ""@,
    }
}

/// Appends a string to a list of strings.
fn push_text(v: &mut Vec<String>, s: &str)
    ensures
        texts(final(v)@) == texts(old(v)@).push(s@),
{
    v.push(String::from_str(s));
    assert(texts(final(v)@) =~= texts(old(v)@).push(s@));
}

impl Base64Input {
    /// A test case with a copy of the given bytes.
    pub fn new(input: &[u8], decode: bool, ignore_garbage: bool, wrap: Option<i8>) -> (r: Self)
        ensures
            r.input@ == input@,
            r.decode == decode,
            r.ignore_garbage == ignore_garbage,
            r.wrap == wrap,
    {
        Base64Input { input: bytes_to_vec(input), decode, ignore_garbage, wrap }
    }

    /// The bytes fed on standard input.
    pub fn get_stdin(&self) -> (r: &Vec<u8>)
        ensures
            r@ == self.input@,
    {
        &self.input
    }

    /// The number of input bytes.
    pub fn len(&self) -> (r: usize)
        ensures
            r == self.input@.len(),
    {
        self.input.len()
    }

    /// The command-line arguments of the test case.
    pub fn get_args(&self) -> (r: Vec<String>)
        ensures
            texts(r@) == args_of(self.decode, self.ignore_garbage, self.wrap),
    {
        let mut args: Vec<String> = Vec::new();
        if self.decode {
            push_text(&mut args, "-d");
        }
        if self.ignore_garbage {
            push_text(&mut args, "-i");
        }
        let ghost before = texts(args@);
        match self.wrap {
            Some(w) => {
                push_text(&mut args, "-w");
                let mut width = String::new();
                push_signed_decimal(&mut width, w as i64);
                assert(width@ =~= signed_decimal(w as int));
                let ghost mid = args@;
                args.push(width);
                assert(texts(args@) =~= texts(mid).push(signed_decimal(w as int)));
                assert(texts(args@) =~= before + seq!["-w"@, signed_decimal(w as int)]);
            },
            None => {
                assert(texts(args@) =~= before + seq![]);
            },
        }
        assert(texts(args@) =~= args_of(self.decode, self.ignore_garbage, self.wrap));
        args
    }

    /// A one-line description: the input as text, then the options that are set.
    pub fn describe(&self) -> (r: String)
        ensures
            r@ == description_of(self.input@, self.decode, self.ignore_garbage, self.wrap),
    {
        let mut s = String::from_str("input: '");
        let shown = vec_string_mapper(&Some(bytes_to_vec(self.input.as_slice())));
        s.append(shown.as_str());
        s.append("'");
        proof {
            reveal_strlit("");
        }
        let ghost start = s@;
        if self.decode {
            s.append(", decode");
        }
        assert(s@ =~= start + if self.decode {
            ", decode"@
        } else {
            ""@
        });
        let ghost mid = s@;
        if self.ignore_garbage {
            s.append(", ignore_garbage");
        }
        assert(s@ =~= mid + if self.ignore_garbage {
            ", ignore_garbage"@
        } else {
            ""@
        });
        match self.wrap {
            Some(w) => {
                s.append(", wrap: ");
                push_signed_decimal(&mut s, w as i64);
                assert(s@ =~= description_of(
                    self.input@,
                    self.decode,
                    self.ignore_garbage,
                    self.wrap,
                ));
            },
            None => {
                assert(s@ =~= description_of(
                    self.input@,
                    self.decode,
                    self.ignore_garbage,
                    self.wrap,
                ));
            },
        }
        s
    }
}

/// Makes test cases of a fixed input size from drawn values.
pub struct Base64Generator {
    input_size: u32,
}

impl Base64Generator {
    /// The input size of the generated test cases.
    pub closed spec fn spec_input_size(&self) -> u32 {
        self.input_size
    }

    /// A generator of inputs of `input_size` bytes.
    pub fn new(input_size: u32) -> (r: Self)
        ensures
            r.spec_input_size() == input_size,
    {
        Base64Generator { input_size }
    }

    /// The input size of the generated test cases.
    pub fn input_size(&self) -> (r: u32)
        ensures
            r == self.spec_input_size(),
    {
        self.input_size
    }

    /// A test case from drawn values: the first `input_size` drawn bytes and the drawn
    /// options; `None` when fewer bytes were drawn.
    pub fn generate(
        &self,
        drawn: &[u8],
        decode: bool,
        ignore_garbage: bool,
        wrap: Option<i8>,
    ) -> (r: Option<Base64Input>)
        ensures
            drawn@.len() < self.spec_input_size() ==> r is None,
            drawn@.len() >= self.spec_input_size() ==> (r matches Some(t) && t.input@
                == drawn@.take(self.spec_input_size() as int) && t.decode == decode
                && t.ignore_garbage == ignore_garbage && t.wrap == wrap),
    {
        let n = self.input_size as usize;
        if drawn.len() < n {
            return None;
        }
        let mut input: Vec<u8> = Vec::new();
        let mut i: usize = 0;
        while i < n
            invariant
                i <= n <= drawn@.len(),
                input@ == drawn@.take(i as int),
            decreases n - i,
        {
            input.push(drawn[i]);
            i = i + 1;
            assert(input@ =~= drawn@.take(i as int));
        }
        Some(Base64Input { input, decode, ignore_garbage, wrap })
    }
}

/// The outcome of a mutation.
#[derive(Clone, Copy, Debug, PartialEq, Eq, Structural)]
pub enum MutationResult {
    Mutated,
    Skipped,
}

/// Toggles decoding.
pub struct Base64FlipDecodeMutator;

impl Base64FlipDecodeMutator {
    /// The mutator's name.
    pub fn name(&self) -> (r: &'static str)
        ensures
            r@ == "Base64FlipDecodeMutator"@,
    {
        "Base64FlipDecodeMutator"
    }

    /// Toggles decoding; the rest is kept.
    pub fn mutate(&mut self, input: &mut Base64Input) -> (r: MutationResult)
        ensures
            r == MutationResult::Mutated,
            final(input).decode == !old(input).decode,
            final(input).input == old(input).input,
            final(input).ignore_garbage == old(input).ignore_garbage,
            final(input).wrap == old(input).wrap,
    {
        input.decode = !input.decode;
        MutationResult::Mutated
    }
}

/// Toggles ignoring of non-alphabet bytes.
pub struct Base64FlipIgnoreGarbageMutator;

impl Base64FlipIgnoreGarbageMutator {
    /// The mutator's name.
    pub fn name(&self) -> (r: &'static str)
        ensures
            r@ == "Base64FlipIgnoreGarbageMutator"@,
    {
        "Base64FlipIgnoreGarbageMutator"
    }

    /// Toggles ignoring of non-alphabet bytes; the rest is kept.
    pub fn mutate(&mut self, input: &mut Base64Input) -> (r: MutationResult)
        ensures
            r == MutationResult::Mutated,
            final(input).ignore_garbage == !old(input).ignore_garbage,
            final(input).input == old(input).input,
            final(input).decode == old(input).decode,
            final(input).wrap == old(input).wrap,
    {
        input.ignore_garbage = !input.ignore_garbage;
        MutationResult::Mutated
    }
}

/// Switches wrapping on with a drawn width, or off.
pub struct Base64FlipWrapMutator;

impl Base64FlipWrapMutator {
    /// The mutator's name.
    pub fn name(&self) -> (r: &'static str)
        ensures
            r@ == "Base64FlipWrapMutator"@,
    {
        "Base64FlipWrapMutator"
    }

    /// Without a width, sets the drawn one; with a width, removes it.
    pub fn mutate(&mut self, input: &mut Base64Input, drawn_width: i8) -> (r: MutationResult)
        ensures
            r == MutationResult::Mutated,
            old(input).wrap is None ==> final(input).wrap == Some(drawn_width),
            old(input).wrap is Some ==> final(input).wrap is None,
            final(input).input == old(input).input,
            final(input).decode == old(input).decode,
            final(input).ignore_garbage == old(input).ignore_garbage,
    {
        match input.wrap {
            None => {
                input.wrap = Some(drawn_width);
            },
            Some(_) => {
                input.wrap = None;
            },
        }
        MutationResult::Mutated
    }
}

/// Replaces the wrap width by a drawn one.
pub struct Base64WrapContentMutator;

impl Base64WrapContentMutator {
    /// The mutator's name.
    pub fn name(&self) -> (r: &'static str)
        ensures
            r@ == "Base64WrapContentMutator"@,
    {
        "Base64WrapContentMutator"
    }

    /// With a width, sets the drawn one; without one, skips.
    pub fn mutate(&mut self, input: &mut Base64Input, drawn_width: i8) -> (r: MutationResult)
        ensures
            old(input).wrap is Some ==> r == MutationResult::Mutated && final(input).wrap == Some(
                drawn_width,
            ),
            old(input).wrap is None ==> r == MutationResult::Skipped && final(input).wrap is None,
            final(input).input == old(input).input,
            final(input).decode == old(input).decode,
            final(input).ignore_garbage == old(input).ignore_garbage,
    {
        match input.wrap {
            Some(_) => {
                input.wrap = Some(drawn_width);
                MutationResult::Mutated
            },
            None => MutationResult::Skipped,
        }
    }
}

} // verus!
