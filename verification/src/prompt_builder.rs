//! Prompt construction: the system prompt, the payload of runtime variables,
//! variable injection into prompt templates, and transcript sanitizing.

use vstd::prelude::*;

use crate::selection_resolver::{SelectionContext, SelectionType};
use crate::sanitize::{append_chars, arrange_sentences_chars, sanitized, squeeze_spaces_chars};
use crate::text::{
    chars_of, contains, is_blank, is_blank_str, is_space, lemma_trim_shape, occurs_at,
    occurs_at_exec, replace_chars, starts_with, string_of, trim_chars,
};

verus! {

/// The system prompt that governs runtime post-processing behavior.
/// This prompt instructs the model to:
/// - Determine intent from transcript and selection context
/// - Apply appropriate transformations based on intent
/// - Use MCP tools when beneficial (web search, image understanding)
/// - Return only the final result without metadata or reasoning
pub const POST_PROCESSING_SYSTEM_PROMPT: &'static str = r#"You are an intelligent transcription post-processing assistant.

Your task is to analyze the user's spoken transcript and any selection context to determine the appropriate action.

## Intent Detection

Analyze the transcript to determine the user's intent:

1. **Plain Transcription**: If the transcript is just speech without clear commands, return a sanitized version:
   - Fix punctuation, capitalization, sentence boundaries
   - Clean speech-to-text artifacts
   - Convert number words to digits where appropriate
   - Remove filler words (um, uh, like)
   - Preserve original meaning and wording
   - Restructure inline enumerations into readable bullet lists when it materially improves clarity

2. **Text Transformation**: If the transcript contains a clear transformation command (e.g., "fix grammar", "make it formal", "shorten", "expand"):
   - Apply the requested transformation to ${selected_text}
   - Return only the transformed result

3. **Text Generation**: If the transcript requests generating new text (e.g., "write an email", "create a summary", "draft a response"):
   - Generate the requested content
   - Use ${selected_text} as context if provided
   - Return only the generated content

4. **Image Analysis**: If an image is selected and the spoken request is about the image:
   - Use the understand_image tool to analyze the image
   - Answer the user's question about the image
   - Return only the analysis result

5. **Web-Assisted Answering**: If the transcript asks about factual, current, or uncertain information:
   - Use the web_search tool to find accurate information
   - Synthesize findings into a coherent response
   - Prefer lookup over guessing for freshness-sensitive queries

## Rules

- Return ONLY the final result
- Do NOT return metadata, reasoning, or mode labels
- Do NOT wrap output in quotes or code blocks unless explicitly requested
- Preserve the original language of the transcript
- When in doubt, prefer sanitized transcription over transformation

## Runtime Variables

- ${output}: The raw transcription text
- ${selected_text}: Text selected by the user (empty if none)
- ${selected_image}: Image selected by the user (empty if none)
- ${selection}: The raw selection (text or image reference)
- ${user_custom_prompt}: User's custom instructions (empty if not set)
"#;

/// The characters of an optional string, or nothing when it is absent.
pub open spec fn text_or_empty(o: Option<String>) -> Seq<char> {
    match o {
        Some(s) => s@,
        None => Seq::empty(),
    }
}

pub(crate) fn string_or_empty(o: &Option<String>) -> (r: String)
    ensures
        r@ == text_or_empty(*o),
{
    match o {
        Some(s) => s.clone(),
        None => String::new(),
    }
}

/// Payload structure for post-processing requests
#[derive(Debug, Clone)]
pub struct PostProcessingPayload {
    /// The raw transcription output
    pub output: String,
    /// Selected text content (empty string if none)
    pub selected_text: String,
    /// Selected image as base64 data URL (empty string if none)
    pub selected_image: String,
    /// The type of selection
    pub selection_type: SelectionType,
    /// Raw selection string
    pub selection: String,
    /// User's custom instructions
    pub user_custom_prompt: String,
}

impl Default for PostProcessingPayload {
    fn default() -> (r: Self)
        ensures
            r.output@.len() == 0,
            r.selected_text@.len() == 0,
            r.selected_image@.len() == 0,
            r.selection_type == SelectionType::Empty,
            r.selection@.len() == 0,
            r.user_custom_prompt@.len() == 0,
    {
        PostProcessingPayload {
            output: String::new(),
            selected_text: String::new(),
            selected_image: String::new(),
            selection_type: SelectionType::Empty,
            selection: String::new(),
            user_custom_prompt: String::new(),
        }
    }
}

impl PostProcessingPayload {
    /// The payload carries `output`, the selection's kind and contents (each
    /// absent part as an empty string) and `custom`.
    pub open spec fn is_payload_of(
        &self,
        output: Seq<char>,
        selection: SelectionContext,
        custom: Seq<char>,
    ) -> bool {
        &&& self.output@ == output
        &&& self.selected_text@ == text_or_empty(selection.selected_text)
        &&& self.selected_image@ == text_or_empty(selection.selected_image)
        &&& self.selection_type == selection.selection_type
        &&& self.selection@ == text_or_empty(selection.selection)
        &&& self.user_custom_prompt@ == custom
    }

    /// An image is available: the kind is `Image` and the image is not empty.
    pub open spec fn spec_has_image(&self) -> bool {
        self.selection_type == SelectionType::Image && self.selected_image@.len() > 0
    }

    /// Text is available: the kind is `Text` and the text is not empty.
    pub open spec fn spec_has_text(&self) -> bool {
        self.selection_type == SelectionType::Text && self.selected_text@.len() > 0
    }

    /// Something is selected.
    pub open spec fn spec_has_selection(&self) -> bool {
        self.selection_type != SelectionType::Empty
    }

    /// Creates a new payload from transcript and selection context
    pub fn new(output: String, selection: &SelectionContext, user_custom_prompt: String) -> (r:
        Self)
        ensures
            r.is_payload_of(output@, *selection, user_custom_prompt@),
    {
        PostProcessingPayload {
            output,
            selected_text: string_or_empty(&selection.selected_text),
            selected_image: string_or_empty(&selection.selected_image),
            selection_type: selection.selection_type,
            selection: string_or_empty(&selection.selection),
            user_custom_prompt,
        }
    }

    /// Returns true if an image is available for processing
    pub fn has_image(&self) -> (b: bool)
        ensures
            b == self.spec_has_image(),
    {
        self.selection_type == SelectionType::Image && !self.selected_image.as_str().is_empty()
    }

    /// Returns true if text is available for processing
    pub fn has_text(&self) -> (b: bool)
        ensures
            b == self.spec_has_text(),
    {
        self.selection_type == SelectionType::Text && !self.selected_text.as_str().is_empty()
    }

    /// Returns true if any selection is available
    pub fn has_selection(&self) -> (b: bool)
        ensures
            b == self.spec_has_selection(),
    {
        self.selection_type != SelectionType::Empty
    }
}

/// A template with each occurrence of the runtime variables `${output}`,
/// `${selected_text}`, `${selected_image}`, `${selection}` and
/// `${user_custom_prompt}`, read from left to right, replaced once by the
/// payload's value; the values are inserted as they are and never read for
/// variables again.
pub open spec fn user_content(template: Seq<char>, p: PostProcessingPayload) -> Seq<char>
    decreases template.len(),
{
    if template.len() == 0 {
        template
    } else {
        proof {
            reveal_strlit("${output}");
            reveal_strlit("${selected_text}");
            reveal_strlit("${selected_image}");
            reveal_strlit("${selection}");
            reveal_strlit("${user_custom_prompt}");
        }
        if starts_with(template, "${output}"@) {
            p.output@ + user_content(template.skip(9), p)
        } else if starts_with(template, "${selected_text}"@) {
            p.selected_text@ + user_content(template.skip(16), p)
        } else if starts_with(template, "${selected_image}"@) {
            p.selected_image@ + user_content(template.skip(17), p)
        } else if starts_with(template, "${selection}"@) {
            p.selection@ + user_content(template.skip(12), p)
        } else if starts_with(template, "${user_custom_prompt}"@) {
            p.user_custom_prompt@ + user_content(template.skip(21), p)
        } else {
            seq![template[0]] + user_content(template.skip(1), p)
        }
    }
}

proof fn lemma_occurs_skip(t: Seq<char>, pat: Seq<char>, i: int)
    requires
        0 <= i <= t.len(),
    ensures
        starts_with(t.skip(i), pat) == occurs_at(t, pat, i),
{
    if occurs_at(t, pat, i) {
        assert(t.skip(i).subrange(0, pat.len() as int) =~= t.subrange(i, i + pat.len()));
    }
    if starts_with(t.skip(i), pat) {
        assert(t.skip(i).subrange(0, pat.len() as int) =~= t.subrange(i, i + pat.len()));
    }
}

/// A payload offers an image or text only when the selection it was made
/// from has one, and has a selection exactly when the selection does.
pub proof fn law_payload_follows_selection(
    p: PostProcessingPayload,
    output: Seq<char>,
    selection: SelectionContext,
    custom: Seq<char>,
)
    requires
        p.is_payload_of(output, selection, custom),
    ensures
        p.spec_has_image() ==> selection.spec_has_image(),
        p.spec_has_text() ==> selection.spec_has_text(),
        p.spec_has_selection() == selection.spec_has_selection(),
{
}

/// The system prompt, followed by the custom instructions under their own
/// heading when they hold more than whitespace.
pub open spec fn system_prompt(custom: Seq<char>) -> Seq<char> {
    if is_blank(custom) {
        POST_PROCESSING_SYSTEM_PROMPT@
    } else {
        POST_PROCESSING_SYSTEM_PROMPT@ + "\n\n## Custom User Instructions\n\n"@ + custom
    }
}

/// A template without "${" comes back unchanged, whatever the payload.
pub proof fn law_template_without_variables(template: Seq<char>, p: PostProcessingPayload)
    requires
        !contains(template, "${"@),
    ensures
        user_content(template, p) == template,
    decreases template.len(),
{
    reveal_strlit("${");
    reveal_strlit("${output}");
    reveal_strlit("${selected_text}");
    reveal_strlit("${selected_image}");
    reveal_strlit("${selection}");
    reveal_strlit("${user_custom_prompt}");
    if template.len() > 0 {
        let q = "${"@;
        assert(!occurs_at(template, q, 0));
        assert forall|pat: Seq<char>|
            pat.len() >= 2 && pat.take(2) == q implies !#[trigger] starts_with(template, pat) by {
            if starts_with(template, pat) {
                assert(template.subrange(0, 2) =~= pat.take(2));
            }
        }
        assert("${output}"@.take(2) =~= q);
        assert("${selected_text}"@.take(2) =~= q);
        assert("${selected_image}"@.take(2) =~= q);
        assert("${selection}"@.take(2) =~= q);
        assert("${user_custom_prompt}"@.take(2) =~= q);
        let rest = template.skip(1);
        assert forall|i: int| !occurs_at(rest, q, i) by {
            if occurs_at(rest, q, i) {
                assert(template.subrange(i + 1, i + 3) =~= rest.subrange(i, i + 2));
                assert(occurs_at(template, q, i + 1));
            }
        }
        law_template_without_variables(rest, p);
        assert(seq![template[0]] + rest =~= template);
    }
}

/// Each variable becomes its value, inserted as it is: a value that itself
/// holds a variable is not expanded again.
pub proof fn law_values_inserted_verbatim(p: PostProcessingPayload, rest: Seq<char>)
    ensures
        user_content("${output}"@ + rest, p) == p.output@ + user_content(rest, p),
        user_content("${selected_text}"@ + rest, p) == p.selected_text@ + user_content(rest, p),
        user_content("${selected_image}"@ + rest, p) == p.selected_image@ + user_content(rest, p),
        user_content("${selection}"@ + rest, p) == p.selection@ + user_content(rest, p),
        user_content("${user_custom_prompt}"@ + rest, p) == p.user_custom_prompt@ + user_content(
            rest,
            p,
        ),
{
    reveal_strlit("${output}");
    reveal_strlit("${selected_text}");
    reveal_strlit("${selected_image}");
    reveal_strlit("${selection}");
    reveal_strlit("${user_custom_prompt}");
    let a = "${output}"@ + rest;
    assert(a.subrange(0, 9) =~= "${output}"@);
    assert(a.skip(9) =~= rest);
    let b = "${selected_text}"@ + rest;
    assert(b.subrange(0, 16) =~= "${selected_text}"@);
    assert(!starts_with(b, "${output}"@)) by {
        assert(b.subrange(0, 9)[3] != "${output}"@[3]);
    }
    assert(b.skip(16) =~= rest);
    let c = "${selected_image}"@ + rest;
    assert(c.subrange(0, 17) =~= "${selected_image}"@);
    assert(!starts_with(c, "${output}"@)) by {
        assert(c.subrange(0, 9)[3] != "${output}"@[3]);
    }
    assert(!starts_with(c, "${selected_text}"@)) by {
        assert(c.subrange(0, 16)[11] != "${selected_text}"@[11]);
    }
    assert(c.skip(17) =~= rest);
    let d = "${selection}"@ + rest;
    assert(d.subrange(0, 12) =~= "${selection}"@);
    assert(!starts_with(d, "${output}"@)) by {
        assert(d.subrange(0, 9)[3] != "${output}"@[3]);
    }
    assert(!starts_with(d, "${selected_text}"@)) by {
        if d.len() >= 16 {
            assert(d.subrange(0, 16)[8] != "${selected_text}"@[8]);
        }
    }
    assert(!starts_with(d, "${selected_image}"@)) by {
        if d.len() >= 17 {
            assert(d.subrange(0, 17)[8] != "${selected_image}"@[8]);
        }
    }
    assert(d.skip(12) =~= rest);
    let e = "${user_custom_prompt}"@ + rest;
    assert(e.subrange(0, 21) =~= "${user_custom_prompt}"@);
    assert(!starts_with(e, "${output}"@)) by {
        assert(e.subrange(0, 9)[2] != "${output}"@[2]);
    }
    assert(!starts_with(e, "${selected_text}"@)) by {
        assert(e.subrange(0, 16)[2] != "${selected_text}"@[2]);
    }
    assert(!starts_with(e, "${selected_image}"@)) by {
        assert(e.subrange(0, 17)[2] != "${selected_image}"@[2]);
    }
    assert(!starts_with(e, "${selection}"@)) by {
        assert(e.subrange(0, 12)[2] != "${selection}"@[2]);
    }
    assert(e.skip(21) =~= rest);
}

/// The system prompt always begins with the base system prompt, and is the
/// base system prompt when the instructions are blank.
pub proof fn law_system_prompt_extends_base(custom: Seq<char>)
    ensures
        starts_with(system_prompt(custom), POST_PROCESSING_SYSTEM_PROMPT@),
        is_blank(custom) ==> system_prompt(custom) == POST_PROCESSING_SYSTEM_PROMPT@,
{
    let b = POST_PROCESSING_SYSTEM_PROMPT@;
    let r = system_prompt(custom);
    assert(r.subrange(0, b.len() as int) =~= b);
}

/// Instructions with any character that is not whitespace, however many
/// lines they span, are appended in full after the base system prompt and
/// the heading; instructions made only of whitespace leave the base system
/// prompt alone.
pub proof fn law_instructions_appended_in_full(custom: Seq<char>)
    ensures
        (exists|i: int| 0 <= i < custom.len() && !is_space(#[trigger] custom[i]))
            ==> system_prompt(custom) == POST_PROCESSING_SYSTEM_PROMPT@
            + "\n\n## Custom User Instructions\n\n"@ + custom,
        (forall|i: int| 0 <= i < custom.len() ==> is_space(#[trigger] custom[i]))
            ==> system_prompt(custom) == POST_PROCESSING_SYSTEM_PROMPT@,
{
    lemma_trim_shape(custom);
}

/// An empty template gives empty content.
pub proof fn law_empty_template(p: PostProcessingPayload)
    ensures
        user_content(Seq::empty(), p) == Seq::<char>::empty(),
{
}

/// A character that does not begin one of the runtime variables is copied
/// as it is, and the variables in the rest of the template are injected
/// wherever they stand: with the law on templates that begin with a
/// variable, this replaces every occurrence of every variable.
pub proof fn law_other_characters_copied(c: char, rest: Seq<char>, p: PostProcessingPayload)
    requires
        !starts_with(seq![c] + rest, "${output}"@),
        !starts_with(seq![c] + rest, "${selected_text}"@),
        !starts_with(seq![c] + rest, "${selected_image}"@),
        !starts_with(seq![c] + rest, "${selection}"@),
        !starts_with(seq![c] + rest, "${user_custom_prompt}"@),
    ensures
        user_content(seq![c] + rest, p) == seq![c] + user_content(rest, p),
{
    let t = seq![c] + rest;
    assert(t.skip(1) =~= rest);
    assert(t[0] == c);
}

/// The content of an image-analysis request.
pub open spec fn image_analysis_content(transcript: Seq<char>, image: Seq<char>) -> Seq<char> {
    "Please analyze this image based on the user's request.\n\nUser's spoken request: "@
        + transcript + "\n\nImage: <image>"@ + image + "</image>"@
}

/// The content of a web-search request.
pub open spec fn web_search_content(transcript: Seq<char>) -> Seq<char> {
    "Search the web for information related to this request: "@ + transcript
}

/// Builder for constructing prompts with variable injection
pub struct PromptBuilder;

impl PromptBuilder {
    /// Build the user content by injecting runtime variables into the template
    ///
    /// Replaces the following variables:
    /// - ${output} -> The raw transcription
    /// - ${selected_text} -> Selected text or empty string
    /// - ${selected_image} -> Selected image data URL or empty string
    /// - ${selection} -> Raw selection or empty string
    /// - ${user_custom_prompt} -> User's custom instructions or empty string
    pub fn build_user_content(template: &str, payload: &PostProcessingPayload) -> (r: String)
        ensures
            r@ == user_content(template@, *payload),
    {
        let t = chars_of(template);
        let n0 = chars_of("${output}");
        let n1 = chars_of("${selected_text}");
        let n2 = chars_of("${selected_image}");
        let n3 = chars_of("${selection}");
        let n4 = chars_of("${user_custom_prompt}");
        let v0 = chars_of(payload.output.as_str());
        let v1 = chars_of(payload.selected_text.as_str());
        let v2 = chars_of(payload.selected_image.as_str());
        let v3 = chars_of(payload.selection.as_str());
        let v4 = chars_of(payload.user_custom_prompt.as_str());
        proof {
            reveal_strlit("${output}");
            reveal_strlit("${selected_text}");
            reveal_strlit("${selected_image}");
            reveal_strlit("${selection}");
            reveal_strlit("${user_custom_prompt}");
        }
        let n = t.len();
        let mut out: Vec<char> = Vec::new();
        let mut i: usize = 0;
        assert(t@.skip(0) =~= t@);
        while i < n
            invariant
                n == t@.len(),
                t@ == template@,
                i <= n,
                n0@ == "${output}"@,
                n1@ == "${selected_text}"@,
                n2@ == "${selected_image}"@,
                n3@ == "${selection}"@,
                n4@ == "${user_custom_prompt}"@,
                n0@.len() == 9,
                n1@.len() == 16,
                n2@.len() == 17,
                n3@.len() == 12,
                n4@.len() == 21,
                v0@ == payload.output@,
                v1@ == payload.selected_text@,
                v2@ == payload.selected_image@,
                v3@ == payload.selection@,
                v4@ == payload.user_custom_prompt@,
                out@ + user_content(t@.skip(i as int), *payload) == user_content(t@, *payload),
            decreases n - i,
        {
            let ghost rest = t@.skip(i as int);
            let ghost before = out@;
            proof {
                lemma_occurs_skip(t@, n0@, i as int);
                lemma_occurs_skip(t@, n1@, i as int);
                lemma_occurs_skip(t@, n2@, i as int);
                lemma_occurs_skip(t@, n3@, i as int);
                lemma_occurs_skip(t@, n4@, i as int);
            }
            let (value, m): (&Vec<char>, usize) = if occurs_at_exec(&t, &n0, i) {
                (&v0, 9)
            } else if occurs_at_exec(&t, &n1, i) {
                (&v1, 16)
            } else if occurs_at_exec(&t, &n2, i) {
                (&v2, 17)
            } else if occurs_at_exec(&t, &n3, i) {
                (&v3, 12)
            } else if occurs_at_exec(&t, &n4, i) {
                (&v4, 21)
            } else {
                (&v0, 0)
            };
            if m > 0 {
                assert(rest.skip(m as int) =~= t@.skip(i + m));
                assert(user_content(rest, *payload) == value@ + user_content(
                    t@.skip(i + m),
                    *payload,
                ));
                append_chars(&mut out, value);
                assert(out@ + user_content(t@.skip(i + m), *payload) =~= before + (value@
                    + user_content(t@.skip(i + m), *payload)));
                i = i + m;
            } else {
                assert(rest.skip(1) =~= t@.skip(i + 1));
                assert(rest[0] == t@[i as int]);
                out.push(t[i]);
                assert(out@ + user_content(t@.skip(i + 1), *payload) =~= before + (seq![
                    t@[i as int]] + user_content(t@.skip(i + 1), *payload)));
                i = i + 1;
            }
        }
        assert(t@.skip(n as int).len() == 0);
        assert(out@ + user_content(t@.skip(n as int), *payload) =~= out@);
        string_of(&out)
    }

    /// Build the system prompt by injecting custom instructions
    ///
    /// If user_custom_prompt is provided, appends it to the base system prompt;
    /// otherwise returns the base system prompt unchanged.
    pub fn build_system_prompt(custom_instructions: &str) -> (r: String)
        ensures
            r@ == system_prompt(custom_instructions@),
    {
        if is_blank_str(custom_instructions) {
            String::from_str(POST_PROCESSING_SYSTEM_PROMPT)
        } else {
            let mut s = String::from_str(POST_PROCESSING_SYSTEM_PROMPT);
            s.append("\n\n## Custom User Instructions\n\n");
            s.append(custom_instructions);
            s
        }
    }

    /// Build content for image analysis mode
    ///
    /// Constructs a prompt that uses the transcript as instruction
    /// and the selected image as the image to analyze.
    pub fn build_image_analysis_content(transcript: &str, image_data: &str) -> (r: String)
        ensures
            r@ == image_analysis_content(transcript@, image_data@),
    {
        let mut s = String::from_str(
            "Please analyze this image based on the user's request.\n\nUser's spoken request: ",
        );
        s.append(transcript);
        s.append("\n\nImage: <image>");
        s.append(image_data);
        s.append("</image>");
        s
    }

    /// Build content for web search queries
    ///
    /// Constructs a prompt for searching based on transcript content.
    pub fn build_web_search_content(transcript: &str) -> (r: String)
        ensures
            r@ == web_search_content(transcript@),
    {
        let mut s = String::from_str("Search the web for information related to this request: ");
        s.append(transcript);
        s
    }

    /// Sanitize transcript for plain transcription mode
    ///
    /// Applies basic cleaning:
    /// - Fixes punctuation
    /// - Corrects capitalization
    /// - Repairs sentence boundaries
    /// - Removes obvious speech artifacts
    pub fn sanitize_transcript(transcript: &str) -> (r: String)
        ensures
            r@ == sanitized(transcript@),
    {
        let v = chars_of(transcript);
        let trimmed = trim_chars(&v);
        // Collapse runs of spaces.
        let squeezed = squeeze_spaces_chars(&trimmed);
        // Remove spaces before commas.
        proof {
            reveal_strlit(" ,");
        }
        let b = replace_chars(&squeezed, &chars_of(" ,"), &chars_of(","));
        // Lay out the sentences: marks kept, one space after them, capitals.
        let mut result = arrange_sentences_chars(&b);
        // Add a final period if no final mark ends the text.
        let n = result.len();
        if n > 0 {
            let c = result[n - 1];
            if !(c == '.' || c == '!' || c == '?' || c == ':' || c == '"' || c == '\'') {
                result.push('.');
            }
        }
        string_of(&result)
    }
}

} // verus!
