//! Code generation as a convergence step: the stub data transformer that the
//! generator proposes, the content hash that ties a generated source to its
//! verification, and the structural checks a source must pass before it is
//! promoted.
use sha2::Digest;
use vstd::prelude::*;
use crate::json::hex_digit;
use crate::text::{concat2, contains_text, owned, push_char, str_contains, str_starts_with, starts_with_text};

verus! {

/// The source text of the stub transformer: a function that turns a CSV
/// row into a JSON object, with its own tests.
pub open spec fn stub_source() -> Seq<char> {
    STUB_TRANSFORMER@
}

/// The stub transformer's source.
pub const STUB_TRANSFORMER: &'static str = r##"/// Auto-generated data transformer
/// Converts CSV row to JSON object.
///
/// Input: CSV line as &str
/// Output: JSON string

pub fn transform(input: &str) -> Result<String, String> {
    let fields: Vec<&str> = input.split(',').collect();
    if fields.len() < 3 {
        return Err(format!("expected at least 3 fields, got {}", fields.len()));
    }
    let json = format!(
        r#"{{"name":"{}","value":"{}","category":"{}"}}"#,
        fields[0].trim(),
        fields[1].trim(),
        fields[2].trim(),
    );
    Ok(json)
}

#[cfg(test)]
mod tests {
    use super::*;

    #[test]
    fn transforms_csv_to_json() {
        let result = transform("Acme, 42, tech").unwrap();
        assert!(result.contains("Acme"));
        assert!(result.contains("42"));
    }

    #[test]
    fn rejects_short_input() {
        assert!(transform("only,two").is_err());
    }
}
"##;

/// The source the generator proposes for a strategy. The stub ignores the
/// strategy and always proposes the same transformer.
pub fn generate_stub_transformer(strategy: &str) -> (r: String)
    ensures
        r@ == stub_source(),
{
    owned(STUB_TRANSFORMER)
}

/// The SHA-256 digest of the UTF-8 bytes of a text.
pub uninterp spec fn sha256_utf8(text: Seq<char>) -> Seq<u8>;

/// `sha2::Sha256`: `new`, `update` with the text's UTF-8 bytes, `finalize`,
/// as the 32 bytes of the digest.
#[verifier::external_body]
fn sha256_digest(text: &str) -> (r: Vec<u8>)
    ensures
        r@ == sha256_utf8(text@),
        r@.len() == 32,
{
    let mut hasher = sha2::Sha256::new();
    hasher.update(text.as_bytes());
    hasher.finalize().to_vec()
}

/// Bytes as lower-case hexadecimal, two digits per byte, high nibble first.
pub open spec fn hex_text(bytes: Seq<u8>) -> Seq<char>
    decreases bytes.len(),
{
    if bytes.len() == 0 {
        Seq::empty()
    } else {
        hex_text(bytes.drop_last()) + seq![
            hex_digit((bytes.last() / 16) as int),
            hex_digit((bytes.last() % 16) as int),
        ]
    }
}

fn hex_char(d: u8) -> (r: char)
    requires
        d < 16,
    ensures
        r == hex_digit(d as int),
{
    if d < 10 {
        ((48 + d) as char)
    } else {
        ((87 + d) as char)
    }
}

/// The SHA-256 digest of a text's UTF-8 bytes, in lower-case hexadecimal.
pub fn sha256_hex(input: &str) -> (r: String)
    ensures
        r@ == hex_text(sha256_utf8(input@)),
        r@.len() == 64,
{
    let digest = sha256_digest(input);
    let mut out = String::new();
    let mut i: usize = 0;
    while i < digest.len()
        invariant
            i <= digest@.len(),
            out@ == hex_text(digest@.take(i as int)),
        decreases digest@.len() - i,
    {
        let b = digest[i];
        assert(digest@.take(i + 1).drop_last() =~= digest@.take(i as int));
        push_char(&mut out, hex_char(b / 16));
        push_char(&mut out, hex_char(b % 16));
        i = i + 1;
        assert(out@ =~= hex_text(digest@.take(i as int)));
    }
    assert(digest@.take(digest@.len() as int) =~= digest@);
    proof {
        lemma_hex_len(digest@);
    }
    out
}

proof fn lemma_hex_len(bytes: Seq<u8>)
    ensures
        hex_text(bytes).len() == 2 * bytes.len(),
    decreases bytes.len(),
{
    if bytes.len() > 0 {
        lemma_hex_len(bytes.drop_last());
    }
}

/// One structural check of a generated source.
#[derive(Debug, Clone, Copy)]
pub struct StructuralCheck {
    pub name: &'static str,
    pub passed: bool,
}

/// Whether the source defines the transform function.
pub open spec fn has_function(s: Seq<char>) -> bool {
    contains_text(s, "fn transform"@)
}

/// Whether the source takes text or bytes.
pub open spec fn has_input_type(s: Seq<char>) -> bool {
    contains_text(s, "&str"@) || contains_text(s, "&[u8]"@)
}

/// Whether the source returns something.
pub open spec fn has_return_type(s: Seq<char>) -> bool {
    contains_text(s, "-> "@)
}

/// Whether the source is free of `unsafe`.
pub open spec fn no_unsafe(s: Seq<char>) -> bool {
    !contains_text(s, "unsafe"@)
}

/// Whether the source can build without std: it uses no `std::` path, or
/// declares itself `no_std`.
pub open spec fn no_std_compatible(s: Seq<char>) -> bool {
    !contains_text(s, "use std::"@) || contains_text(s, "#![no_std]"@)
}

/// The structural checks of a source, by name, in the order they are
/// reported.
pub open spec fn structural_checks_spec(s: Seq<char>) -> Seq<StructuralCheck> {
    seq![
        StructuralCheck { name: "has-function", passed: has_function(s) },
        StructuralCheck { name: "has-input-type", passed: has_input_type(s) },
        StructuralCheck { name: "has-return-type", passed: has_return_type(s) },
        StructuralCheck { name: "no-unsafe", passed: no_unsafe(s) },
        StructuralCheck { name: "no-std-compatible", passed: no_std_compatible(s) },
    ]
}

/// The structural checks of a source, in the order they are reported.
pub fn structural_checks(source: &str) -> (r: Vec<StructuralCheck>)
    ensures
        r@ == structural_checks_spec(source@),
{
    let mut r: Vec<StructuralCheck> = Vec::new();
    r.push(StructuralCheck { name: "has-function", passed: str_contains(source, "fn transform") });
    r.push(
        StructuralCheck {
            name: "has-input-type",
            passed: str_contains(source, "&str") || str_contains(source, "&[u8]"),
        },
    );
    r.push(StructuralCheck { name: "has-return-type", passed: str_contains(source, "-> ") });
    r.push(StructuralCheck { name: "no-unsafe", passed: !str_contains(source, "unsafe") });
    r.push(
        StructuralCheck {
            name: "no-std-compatible",
            passed: !str_contains(source, "use std::") || str_contains(source, "#![no_std]"),
        },
    );
    assert(r@ =~= structural_checks_spec(source@));
    r
}

/// The names of the checks that failed, in order.
pub open spec fn failed_names(checks: Seq<StructuralCheck>, n: int) -> Seq<Seq<char>>
    decreases n,
{
    if n <= 0 {
        Seq::empty()
    } else if checks[n - 1].passed {
        failed_names(checks, n - 1)
    } else {
        failed_names(checks, n - 1).push(checks[n - 1].name@)
    }
}

/// How the verifier judges a generated source.
#[derive(Debug)]
pub enum SourceVerdict {
    /// The source does not hash to the hash it came with.
    HashMismatch { expected: String, actual: String },
    /// Some structural checks failed; their names, in order.
    StructuralFailure { failed: Vec<&'static str> },
    /// Every check passed.
    Pass { checks_passed: usize },
}

/// Judges a generated source against the hash it came with: the hash must
/// match the source's SHA-256; then every structural check must pass.
pub fn verify_source(source: &str, source_hash: &str) -> (r: SourceVerdict)
    ensures
        hex_text(sha256_utf8(source@)) != source_hash@ <==> r is HashMismatch,
        r matches SourceVerdict::HashMismatch { expected, actual } ==> expected@ == source_hash@
            && actual@ == hex_text(sha256_utf8(source@)),
        r matches SourceVerdict::Pass { checks_passed } ==> checks_passed == 5,
        r matches SourceVerdict::StructuralFailure { failed } ==> failed@.len() > 0,
        hex_text(sha256_utf8(source@)) == source_hash@ ==> ((r is Pass) <==> (has_function(source@)
            && has_input_type(source@) && has_return_type(source@) && no_unsafe(source@)
            && no_std_compatible(source@))),
        r matches SourceVerdict::StructuralFailure { failed } ==> failed@.map_values(|n: &str| n@)
            == failed_names(structural_checks_spec(source@), 5),
{
    let actual = sha256_hex(source);
    if !crate::text::str_eq(actual.as_str(), source_hash) {
        return SourceVerdict::HashMismatch { expected: owned(source_hash), actual };
    }
    let checks = structural_checks(source);
    let ghost cs = checks@;
    let mut failed: Vec<&'static str> = Vec::new();
    let mut i: usize = 0;
    while i < checks.len()
        invariant
            checks@ == cs,
            cs.len() == 5,
            i <= 5,
            failed@.map_values(|n: &str| n@) == failed_names(cs, i as int),
        decreases 5 - i,
    {
        if !checks[i].passed {
            failed.push(checks[i].name);
        }
        i = i + 1;
        assert(failed@.map_values(|n: &str| n@) =~= failed_names(cs, i as int));
    }
    if failed.len() == 0 {
        proof {
            reveal_with_fuel(failed_names, 6);
        }
        SourceVerdict::Pass { checks_passed: checks.len() }
    } else {
        proof {
            reveal_with_fuel(failed_names, 6);
        }
        SourceVerdict::StructuralFailure { failed }
    }
}

} // verus!
