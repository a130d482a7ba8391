use vstd::prelude::*;
use vstd::string::StringExecFns;
use vstd::utf8::encode_utf8;

use crate::abi::{encodable, parse_kind, word_zero_padded, ParamKind};
use crate::errors::FuzzError;
use crate::interface::ParsedFunction;
use crate::rng::random_index;

verus! {

/// The Keccak-256 digest of a byte sequence, a pure function of its input.
pub uninterp spec fn keccak256_of(bytes: Seq<u8>) -> Seq<u8>;

/// Relies on tiny_keccak's `Keccak::v256` with `update` and `finalize`: the
/// 32-byte Keccak-256 digest of the input bytes, which depends on the input
/// bytes alone.
#[verifier::external_body]
fn keccak256(input: &[u8]) -> (r: Vec<u8>)
    ensures
        r@ == keccak256_of(input@),
        r@.len() == 32,
{
    let mut keccak = tiny_keccak::Keccak::v256();
    let mut hash = [0u8; 32];
    tiny_keccak::Hasher::update(&mut keccak, input);
    tiny_keccak::Hasher::finalize(keccak, &mut hash);
    hash.to_vec()
}

/// The 4-byte selector of a canonical signature text: the first four bytes of
/// the Keccak-256 digest of its UTF-8 bytes, with no further transformation.
pub open spec fn spec_selector(signature: Seq<char>) -> Seq<u8> {
    keccak256_of(encode_utf8(signature)).take(4)
}

/// Maps a canonical function signature string, e.g. `transfer(address,uint256)`,
/// to the 4-byte selector that routes a call to that function.
pub fn function_selector(signature: &str) -> (r: [u8; 4])
    ensures
        r@ == spec_selector(signature@),
{
    let hash = keccak256(signature.as_bytes());
    let r: [u8; 4] = [hash[0], hash[1], hash[2], hash[3]];
    proof {
        assert(r@ =~= spec_selector(signature@));
    }
    r
}

/// A resolved description of one target function: its selector and its
/// parameter kinds, in declared order. Built once per campaign; immutable.
#[derive(Debug)]
pub struct FunctionSpec {
    /// The 4-byte call selector derived from the declared signature text.
    pub selector: [u8; 4],
    /// The parameter kinds, arity and order matching the interface.
    pub params: Vec<ParamKind>,
    /// The function's name, for diagnostics only.
    pub name: String,
}

/// The parameter type names joined with a comma, as in a canonical signature.
pub open spec fn join_comma(parts: Seq<Seq<char>>) -> Seq<char>
    decreases parts.len(),
{
    if parts.len() == 0 {
        Seq::empty()
    } else if parts.len() == 1 {
        parts[0]
    } else {
        join_comma(parts.drop_last()) + ","@ + parts.last()
    }
}

/// The canonical signature text of a declared function: its name, then the
/// declared parameter type names joined with commas, in parentheses.
pub open spec fn spec_signature(pf: ParsedFunction) -> Seq<char> {
    pf.name@ + "("@ + join_comma(pf.param_names()) + ")"@
}

/// What building one function spec from one interface entry must yield.
pub open spec fn spec_built(f: FunctionSpec, pf: ParsedFunction) -> bool {
    &&& f.name@ == pf.name@
    &&& f.selector@ == spec_selector(spec_signature(pf))
    &&& f.params@.len() == pf.inputs@.len()
    &&& forall|j: int|
        0 <= j < pf.inputs@.len() ==> Some(#[trigger] f.params@[j]) == parse_kind(
            pf.inputs@[j].internal_type@,
        )
}

/// Every parameter of the function has an implemented random encoding.
pub open spec fn all_encodable(f: FunctionSpec) -> bool {
    forall|j: int| 0 <= j < f.params@.len() ==> encodable(#[trigger] f.params@[j])
}

/// A generated payload belongs to a function spec when it is the function's
/// selector followed by one well-formed 32-byte word per parameter.
pub open spec fn calldata_for(f: FunctionSpec, cd: Seq<u8>) -> bool {
    &&& cd.len() == 4 + 32 * f.params@.len()
    &&& cd.take(4) == f.selector@
    &&& forall|j: int|
        0 <= j < f.params@.len() ==> word_zero_padded(
            #[trigger] f.params@[j],
            cd.subrange(4 + 32 * j, 4 + 32 * j + 32),
        )
}

/// The calldata generator: owns the resolved function specs for one campaign
/// and emits one fully encoded random call per request.
pub struct SolidityFuzzer {
    /// The resolved target functions the generator draws from.
    pub functions: Vec<FunctionSpec>,
}

proof fn lemma_join_comma_step(parts: Seq<Seq<char>>, j: int)
    requires
        1 <= j < parts.len(),
    ensures
        join_comma(parts.take(j + 1)) == join_comma(parts.take(j)) + ","@ + parts[j],
{
    let front = parts.take(j + 1);
    assert(front.drop_last() =~= parts.take(j));
    assert(front.last() == parts[j]);
}

impl SolidityFuzzer {
    /// Builds the function specs for a campaign from the compiler-supplied
    /// interface description: for each declared function, its canonical
    /// signature is hashed into a selector and each declared type name is
    /// parsed into a kind. An interface using any type name outside the
    /// supported baseline is rejected whole before any execution begins.
    pub fn new(abi: Vec<ParsedFunction>) -> (r: Result<SolidityFuzzer, FuzzError>)
        ensures
            r matches Ok(fz) ==> {
                &&& fz.functions@.len() == abi@.len()
                &&& forall|i: int|
                    0 <= i < abi@.len() ==> spec_built(#[trigger] fz.functions@[i], abi@[i])
            },
            r is Ok <==> (forall|i: int, j: int|
                0 <= i < abi@.len() && 0 <= j < abi@[i].inputs@.len() ==> parse_kind(
                    #[trigger] abi@[i].inputs@[j].internal_type@,
                ) is Some),
            r is Err ==> r == Err::<SolidityFuzzer, FuzzError>(FuzzError::UnsupportedTypeKind),
    {
        let mut functions: Vec<FunctionSpec> = Vec::new();
        let mut fi: usize = 0;
        while fi < abi.len()
            invariant
                fi <= abi@.len(),
                functions@.len() == fi,
                forall|i: int| 0 <= i < fi ==> spec_built(#[trigger] functions@[i], abi@[i]),
                forall|i: int, j: int|
                    0 <= i < fi && 0 <= j < abi@[i].inputs@.len() ==> parse_kind(
                        #[trigger] abi@[i].inputs@[j].internal_type@,
                    ) is Some,
            decreases abi@.len() - fi,
        {
            let pf = &abi[fi];
            let mut sig = pf.name.clone();
            sig.append("(");
            let mut params: Vec<ParamKind> = Vec::new();
            let mut j: usize = 0;
            while j < pf.inputs.len()
                invariant
                    j <= pf.inputs@.len(),
                    pf == abi@[fi as int],
                    fi < abi@.len(),
                    params@.len() == j,
                    sig@ == pf.name@ + "("@ + join_comma(pf.param_names().take(j as int)),
                    forall|q: int|
                        0 <= q < j ==> Some(#[trigger] params@[q]) == parse_kind(
                            pf.inputs@[q].internal_type@,
                        ),
                decreases pf.inputs@.len() - j,
            {
                if j > 0 {
                    sig.append(",");
                }
                sig.append(pf.inputs[j].internal_type.as_str());
                match ParamKind::from_string(pf.inputs[j].internal_type.as_str()) {
                    Ok(k) => params.push(k),
                    Err(e) => {
                        return Err(e);
                    },
                }
                proof {
                    let names = pf.param_names();
                    assert(names[j as int] == pf.inputs@[j as int].internal_type@);
                    if j == 0 {
                        assert(names.take(1) =~= seq![names[0]]);
                        assert(join_comma(names.take(0)) =~= Seq::<char>::empty());
                        assert(sig@ =~= pf.name@ + "("@ + join_comma(names.take(1)));
                    } else {
                        lemma_join_comma_step(names, j as int);
                    }
                }
                j += 1;
            }
            sig.append(")");
            proof {
                assert(pf.param_names().take(pf.inputs@.len() as int) =~= pf.param_names());
                assert(sig@ == spec_signature(abi@[fi as int]));
                assert forall|q: int| 0 <= q < abi@[fi as int].inputs@.len() implies parse_kind(
                    #[trigger] abi@[fi as int].inputs@[q].internal_type@,
                ) is Some by {
                    assert(Some(params@[q]) == parse_kind(abi@[fi as int].inputs@[q].internal_type@));
                }
            }
            let selector = function_selector(sig.as_str());
            let name = pf.name.clone();
            functions.push(FunctionSpec { selector, params, name });
            fi += 1;
        }
        Ok(SolidityFuzzer { functions })
    }

    /// Emits one random call payload: a uniformly chosen function's selector
    /// followed by one freshly drawn 32-byte word per parameter, in declared
    /// order, so the payload is exactly `4 + 32 * k` bytes for `k` parameters.
    /// An empty interface yields `EmptyInterface`; a chosen function with a
    /// parameter kind outside the implemented baseline yields
    /// `UnsupportedTypeKind` rather than a mis-encoded payload.
    pub fn generate_random_calldata(&self, rng: &mut rand::rngs::ThreadRng) -> (r: Result<
        Vec<u8>,
        FuzzError,
    >)
        ensures
            self.functions@.len() == 0 <==> r == Err::<Vec<u8>, FuzzError>(
                FuzzError::EmptyInterface,
            ),
            r matches Ok(cd) ==> exists|i: int|
                0 <= i < self.functions@.len() && calldata_for(#[trigger] self.functions@[i], cd@),
            r == Err::<Vec<u8>, FuzzError>(FuzzError::UnsupportedTypeKind) ==> exists|i: int|
                0 <= i < self.functions@.len() && !all_encodable(#[trigger] self.functions@[i]),
            r is Err ==> r == Err::<Vec<u8>, FuzzError>(FuzzError::EmptyInterface) || r == Err::<
                Vec<u8>,
                FuzzError,
            >(FuzzError::UnsupportedTypeKind),
            self.functions@.len() > 0 && (forall|i: int|
                0 <= i < self.functions@.len() ==> all_encodable(#[trigger] self.functions@[i]))
                ==> r is Ok,
    {
        if self.functions.len() == 0 {
            return Err(FuzzError::EmptyInterface);
        }
        let idx = random_index(rng, self.functions.len());
        let f = &self.functions[idx];
        let mut cd: Vec<u8> = Vec::new();
        cd.push(f.selector[0]);
        cd.push(f.selector[1]);
        cd.push(f.selector[2]);
        cd.push(f.selector[3]);
        proof {
            assert(cd@ =~= f.selector@);
        }
        let mut j: usize = 0;
        while j < f.params.len()
            invariant
                j <= f.params@.len(),
                0 <= idx < self.functions@.len(),
                *f == self.functions@[idx as int],
                cd@.len() == 4 + 32 * j,
                cd@.take(4) == f.selector@,
                forall|q: int|
                    0 <= q < j ==> word_zero_padded(
                        #[trigger] f.params@[q],
                        cd@.subrange(4 + 32 * q, 4 + 32 * q + 32),
                    ),
            decreases f.params@.len() - j,
        {
            let word = match crate::abi::random_encoded_value(&f.params[j], rng) {
                Ok(w) => w,
                Err(e) => {
                    return Err(e);
                },
            };
            let ghost old_cd = cd@;
            let mut word = word;
            cd.append(&mut word);
            proof {
                assert(cd@.take(4) =~= old_cd.take(4));
                assert forall|q: int| 0 <= q < j + 1 implies word_zero_padded(
                    #[trigger] f.params@[q],
                    cd@.subrange(4 + 32 * q, 4 + 32 * q + 32),
                ) by {
                    if q < j {
                        assert(cd@.subrange(4 + 32 * q, 4 + 32 * q + 32) =~= old_cd.subrange(
                            4 + 32 * q,
                            4 + 32 * q + 32,
                        ));
                    } else {
                        assert(cd@.subrange(4 + 32 * q, 4 + 32 * q + 32) =~= cd@.subrange(
                            old_cd.len() as int,
                            cd@.len() as int,
                        ));
                    }
                }
            }
            j += 1;
        }
        proof {
            assert(calldata_for(self.functions@[idx as int], cd@));
        }
        Ok(cd)
    }
}

/// Law: the selector is a function of the signature text alone, so deriving
/// it twice from the same signature yields identical 4-byte output.
pub proof fn lemma_selector_deterministic(s1: Seq<char>, s2: Seq<char>)
    requires
        s1 == s2,
    ensures
        spec_selector(s1) == spec_selector(s2),
{
}

/// Law: building function specs twice over interface descriptions with the
/// same text yields collections with identical selectors, parameter-kind
/// sequences, names and ordering.
pub proof fn lemma_build_deterministic(
    f1: SolidityFuzzer,
    f2: SolidityFuzzer,
    abi1: Seq<ParsedFunction>,
    abi2: Seq<ParsedFunction>,
)
    requires
        abi1.len() == abi2.len(),
        forall|i: int| 0 <= i < abi1.len() ==> (#[trigger] abi1[i]).text_view() == abi2[i].text_view(),
        f1.functions@.len() == abi1.len(),
        forall|i: int| 0 <= i < abi1.len() ==> spec_built(#[trigger] f1.functions@[i], abi1[i]),
        f2.functions@.len() == abi2.len(),
        forall|i: int| 0 <= i < abi2.len() ==> spec_built(#[trigger] f2.functions@[i], abi2[i]),
    ensures
        f1.functions@.len() == f2.functions@.len(),
        forall|i: int|
            0 <= i < f1.functions@.len() ==> {
                &&& (#[trigger] f1.functions@[i]).selector@ == f2.functions@[i].selector@
                &&& f1.functions@[i].params@ == f2.functions@[i].params@
                &&& f1.functions@[i].name@ == f2.functions@[i].name@
            },
{
    assert forall|i: int| 0 <= i < f1.functions@.len() implies {
        &&& (#[trigger] f1.functions@[i]).selector@ == f2.functions@[i].selector@
        &&& f1.functions@[i].params@ == f2.functions@[i].params@
        &&& f1.functions@[i].name@ == f2.functions@[i].name@
    } by {
        let pf1 = abi1[i];
        let pf2 = abi2[i];
        assert(pf1.name@ == pf2.name@);
        assert(pf1.param_names() == pf2.param_names());
        assert(spec_signature(pf1) == spec_signature(pf2));
        assert(pf1.inputs@.len() == pf1.param_names().len());
        assert(pf2.inputs@.len() == pf2.param_names().len());
        let p1 = f1.functions@[i].params@;
        let p2 = f2.functions@[i].params@;
        assert forall|j: int| 0 <= j < p1.len() implies p1[j] == p2[j] by {
            assert(pf1.param_names()[j] == pf1.inputs@[j].internal_type@);
            assert(pf2.param_names()[j] == pf2.inputs@[j].internal_type@);
            assert(Some(p1[j]) == parse_kind(pf1.inputs@[j].internal_type@));
            assert(Some(p2[j]) == parse_kind(pf2.inputs@[j].internal_type@));
        }
        assert(p1 =~= p2);
    }
}

} // verus!
