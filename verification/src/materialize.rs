use vstd::prelude::*;
use vstd::string::*;

use crate::codec::b64_decode_of;
use crate::codec::decode_payload;
use crate::errors::ImgError;
use crate::json::ImagePayload;
use crate::text::dec_rep;
use crate::text::u64_to_decimal;

verus! {

/// One output file the materializer has planned: its collision-free name
/// and the decoded image bytes.
pub struct PlannedFile {
    /// The filename, `{slug}_{counter}.png`.
    pub name: String,
    /// The decoded image bytes.
    pub bytes: Vec<u8>,
}

/// The candidate filename for a slug and a counter: `{slug}_{counter}.png`.
pub open spec fn candidate_chars(slug: Seq<char>, counter: nat) -> Seq<char> {
    slug + "_"@ + dec_rep(counter) + ".png"@
}

/// Builds the candidate filename for a slug and a counter.
pub fn candidate_name(slug: &String, counter: usize) -> (r: String)
    ensures
        r@ == candidate_chars(slug@, counter as nat),
{
    let mut s = slug.clone();
    s.append("_");
    let digits = u64_to_decimal(counter as u64);
    s.append(digits.as_str());
    s.append(".png");
    proof {
        assert(s@ =~= candidate_chars(slug@, counter as nat));
    }
    s
}

/// Whether `taken` holds a name with these characters.
pub open spec fn taken_has(taken: Seq<String>, name: Seq<char>) -> bool {
    exists|j: int| 0 <= j < taken.len() && taken[j]@ == name
}

fn name_is_taken(taken: &Vec<String>, name: &String) -> (r: bool)
    ensures
        r == taken_has(taken@, name@),
{
    let mut j: usize = 0;
    while j < taken.len()
        invariant
            j <= taken.len(),
            forall|jj: int| 0 <= jj < j ==> taken@[jj]@ != name@,
        decreases taken.len() - j,
    {
        if taken[j] == *name {
            proof {
                assert(taken@[j as int]@ == name@);
            }
            return true;
        }
        j += 1;
    }
    false
}

/// Whether the candidate for this counter is free of the taken names.
pub open spec fn counter_free(slug: Seq<char>, taken: Seq<String>, c: nat) -> bool {
    !taken_has(taken, candidate_chars(slug, c))
}

/// Whether `c` is the counter the materializer picks when it starts at
/// `start`: the first counter from `start` up whose candidate name is free.
pub open spec fn chosen_counter(slug: Seq<char>, taken: Seq<String>, start: nat, c: nat) -> bool {
    &&& start <= c
    &&& counter_free(slug, taken, c)
    &&& forall|c2: nat| start <= c2 < c ==> !counter_free(slug, taken, c2)
}

/// Picks the first free filename `{slug}_{c}.png` with `c >= start`, so that
/// no existing file is ever overwritten. Fails with `CounterOverflowError`
/// only when every counter the machine can count is taken.
pub fn pick_filename(slug: &String, start: usize, taken: &Vec<String>) -> (r: Result<
    String,
    ImgError,
>)
    ensures
        r matches Ok(name) ==> exists|c: nat|
            #[trigger] chosen_counter(slug@, taken@, start as nat, c) && name@ == candidate_chars(
                slug@,
                c,
            ),
        r matches Err(e) ==> e == ImgError::CounterOverflow && (forall|c: nat|
            start <= c <= usize::MAX ==> !counter_free(slug@, taken@, c)),
{
    let mut c: usize = start;
    loop
        invariant
            start <= c <= usize::MAX,
            forall|c2: nat| start <= c2 < c ==> !counter_free(slug@, taken@, c2),
        decreases usize::MAX - c,
    {
        let cand = candidate_name(slug, c);
        if !name_is_taken(taken, &cand) {
            proof {
                assert(chosen_counter(slug@, taken@, start as nat, c as nat));
            }
            return Ok(cand);
        }
        if c == usize::MAX {
            return Err(ImgError::CounterOverflow);
        }
        c = c + 1;
    }
}

/// The names of a sequence of planned files.
pub open spec fn names_of(files: Seq<PlannedFile>) -> Seq<String> {
    files.map_values(|f: PlannedFile| f.name)
}

/// What one planned file must satisfy: its bytes are the payload's base64
/// decoding, and its name carries the first free counter at or above the
/// payload's 1-based sequence index, given the names taken so far.
pub open spec fn item_plan_ok(
    slug: Seq<char>,
    index: nat,
    payload_b64: Seq<char>,
    taken: Seq<String>,
    f: PlannedFile,
) -> bool {
    &&& b64_decode_of(payload_b64) == Some(f.bytes@)
    &&& exists|c: nat|
        #[trigger] chosen_counter(slug, taken, index, c) && f.name@ == candidate_chars(slug, c)
}

/// Plans the output file for one payload: decodes its base64 text and picks
/// the first free filename counting from the payload's 1-based index.
/// Fails with `Base64DecodeError` exactly when the payload is not valid
/// base64, and with `CounterOverflowError` only when no counter is free.
pub fn plan_item(slug: &String, index: usize, payload: &ImagePayload, taken: &Vec<String>) -> (r:
    Result<PlannedFile, ImgError>)
    requires
        1 <= index,
    ensures
        r matches Ok(f) ==> item_plan_ok(slug@, index as nat, payload.b64_json@, taken@, f),
        r matches Err(e) ==> {
            ||| (e == ImgError::Base64Decode && b64_decode_of(payload.b64_json@) is None)
            ||| (e == ImgError::CounterOverflow && b64_decode_of(payload.b64_json@) is Some && (
            forall|c: nat| index <= c <= usize::MAX ==> !counter_free(slug@, taken@, c)))
        },
{
    let bytes = match decode_payload(payload) {
        Ok(b) => b,
        Err(e) => {
            return Err(e);
        },
    };
    match pick_filename(slug, index, taken) {
        Ok(name) => Ok(PlannedFile { name, bytes }),
        Err(e) => Err(e),
    }
}

/// Whether the batch's first failure is at payload `i`, and is a payload
/// that is not valid base64.
pub open spec fn first_decode_failure(payloads: Seq<ImagePayload>, i: int) -> bool {
    &&& 0 <= i < payloads.len()
    &&& b64_decode_of(payloads[i].b64_json@) is None
    &&& forall|j: int| 0 <= j < i ==> (#[trigger] b64_decode_of(payloads[j].b64_json@)) is Some
}

/// Whether the batch's first failure is at payload `i`, which decodes, but
/// finds every counter taken once the names planned before it (`extra`)
/// count as taken too.
pub open spec fn overflow_at(
    slug: Seq<char>,
    payloads: Seq<ImagePayload>,
    taken: Seq<String>,
    i: int,
    extra: Seq<String>,
) -> bool {
    &&& 0 <= i < payloads.len()
    &&& extra.len() == i
    &&& forall|j: int| 0 <= j <= i ==> (#[trigger] b64_decode_of(payloads[j].b64_json@)) is Some
    &&& forall|c: nat| i + 1 <= c <= usize::MAX ==> !counter_free(slug, taken + extra, c)
}

/// Copies a list of names, keeping each name's characters.
fn clone_names(names: &Vec<String>) -> (r: Vec<String>)
    ensures
        r@ == names@,
{
    let mut r: Vec<String> = Vec::new();
    let mut j: usize = 0;
    while j < names.len()
        invariant
            j <= names.len(),
            r@.len() == j,
            forall|k: int| 0 <= k < j ==> r@[k] == names@[k],
        decreases names.len() - j,
    {
        r.push(names[j].clone());
        j += 1;
    }
    proof {
        assert(r@ =~= names@);
    }
    r
}

/// Plans the whole batch: one file per payload, in response order, with
/// 1-based sequence indices, each name free of the taken names and of the
/// names planned before it. On success there are exactly as many files as
/// payloads; a failure names the first payload that fails.
pub fn materialize_plan(slug: &String, payloads: &Vec<ImagePayload>, taken: &Vec<String>) -> (r:
    Result<Vec<PlannedFile>, ImgError>)
    ensures
        r matches Ok(files) ==> {
            &&& files@.len() == payloads@.len()
            &&& forall|i: int|
                0 <= i < files@.len() ==> item_plan_ok(
                    slug@,
                    (i + 1) as nat,
                    payloads@[i].b64_json@,
                    taken@ + names_of(files@.subrange(0, i)),
                    #[trigger] files@[i],
                )
        },
        r matches Err(e) ==> {
            ||| (e == ImgError::Base64Decode && (exists|i: int|
                #[trigger] first_decode_failure(payloads@, i)))
            ||| (e == ImgError::CounterOverflow && (exists|i: int, extra: Seq<String>|
                #[trigger] overflow_at(slug@, payloads@, taken@, i, extra)))
        },
{
    let mut cur = clone_names(taken);
    let mut files: Vec<PlannedFile> = Vec::new();
    let mut i: usize = 0;
    while i < payloads.len()
        invariant
            i <= payloads.len(),
            files@.len() == i,
            cur@ =~= taken@ + names_of(files@),
            forall|j: int|
                0 <= j < i ==> item_plan_ok(
                    slug@,
                    (j + 1) as nat,
                    payloads@[j].b64_json@,
                    taken@ + names_of(files@.subrange(0, j)),
                    #[trigger] files@[j],
                ),
        decreases payloads.len() - i,
    {
        let f = match plan_item(slug, i + 1, &payloads[i], &cur) {
            Ok(f) => f,
            Err(e) => {
                proof {
                    assert forall|j: int| 0 <= j < i implies (#[trigger] b64_decode_of(
                        payloads@[j].b64_json@,
                    )) is Some by {
                        assert(item_plan_ok(
                            slug@,
                            (j + 1) as nat,
                            payloads@[j].b64_json@,
                            taken@ + names_of(files@.subrange(0, j)),
                            files@[j],
                        ));
                    }
                    if b64_decode_of(payloads@[i as int].b64_json@) is None {
                        assert(first_decode_failure(payloads@, i as int));
                    } else {
                        let extra = names_of(files@);
                        assert(taken@ + extra =~= cur@);
                        assert(overflow_at(slug@, payloads@, taken@, i as int, extra));
                    }
                }
                return Err(e);
            },
        };
        cur.push(f.name.clone());
        proof {
            assert(names_of(files@.push(f)) =~= names_of(files@).push(f.name));
            assert(files@.push(f).subrange(0, i as int) =~= files@);
        }
        files.push(f);
        i += 1;
        proof {
            assert(forall|j: int|
                0 <= j < i ==> #[trigger] files@.subrange(0, j) =~= files@.subrange(
                    0,
                    i - 1,
                ).subrange(0, j));
        }
    }
    Ok(files)
}

proof fn lemma_taken_has_concat(a: Seq<String>, b: Seq<String>, n: Seq<char>)
    ensures
        taken_has(a + b, n) <==> (taken_has(a, n) || taken_has(b, n)),
{
    if taken_has(a + b, n) {
        let j = choose|j: int| 0 <= j < (a + b).len() && (a + b)[j]@ == n;
        if j < a.len() {
            assert(a[j]@ == n);
        } else {
            assert(b[j - a.len()]@ == n);
        }
    }
    if taken_has(a, n) {
        let j = choose|j: int| 0 <= j < a.len() && a[j]@ == n;
        assert((a + b)[j]@ == n);
    }
    if taken_has(b, n) {
        let j = choose|j: int| 0 <= j < b.len() && b[j]@ == n;
        assert((a + b)[a.len() + j]@ == n);
    }
}

/// A planned file never overwrites an existing one: its name differs from
/// every name that was already taken.
pub proof fn lemma_planned_name_fresh(
    slug: Seq<char>,
    index: nat,
    payload_b64: Seq<char>,
    taken: Seq<String>,
    f: PlannedFile,
)
    requires
        item_plan_ok(slug, index, payload_b64, taken, f),
    ensures
        !taken_has(taken, f.name@),
{
}

/// A planned batch never reuses a name: every planned name differs from
/// every taken name and from every other planned name, so a batch of `k`
/// payloads yields `k` distinct new files.
pub proof fn lemma_batch_names_fresh(
    slug: Seq<char>,
    b64s: Seq<Seq<char>>,
    taken: Seq<String>,
    files: Seq<PlannedFile>,
)
    requires
        files.len() == b64s.len(),
        forall|i: int|
            0 <= i < files.len() ==> item_plan_ok(
                slug,
                (i + 1) as nat,
                b64s[i],
                taken + names_of(files.subrange(0, i)),
                #[trigger] files[i],
            ),
    ensures
        forall|i: int| 0 <= i < files.len() ==> !taken_has(taken, #[trigger] files[i].name@),
        forall|i: int, j: int|
            0 <= i < j < files.len() ==> #[trigger] files[i].name@ != #[trigger] files[j].name@,
{
    assert forall|i: int| 0 <= i < files.len() implies !taken_has(
        taken,
        #[trigger] files[i].name@,
    ) by {
        lemma_taken_has_concat(taken, names_of(files.subrange(0, i)), files[i].name@);
    }
    assert forall|i: int, j: int| 0 <= i < j < files.len() implies #[trigger] files[i].name@
        != #[trigger] files[j].name@ by {
        lemma_taken_has_concat(taken, names_of(files.subrange(0, j)), files[j].name@);
        assert(names_of(files.subrange(0, j))[i] == files[i].name);
        if files[i].name@ == files[j].name@ {
            assert(taken_has(names_of(files.subrange(0, j)), files[j].name@));
        }
    }
}

/// The confirmation line announced for one saved file.
pub open spec fn saved_message_chars(name: Seq<char>) -> Seq<char> {
    "Image saved to: "@ + name
}

/// Builds the confirmation line announced for one saved file.
pub fn saved_message(name: &String) -> (r: String)
    ensures
        r@ == saved_message_chars(name@),
{
    let mut s: String = ("Image saved to: ").to_owned();
    s.append(name.as_str());
    s
}

} // verus!
