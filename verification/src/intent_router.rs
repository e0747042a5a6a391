//! Intent routing: from a transcript and the selection context to the
//! post-processing mode.

use vstd::prelude::*;

use crate::selection_resolver::SelectionContext;
use crate::text::{
    chars_of, contains, contains_chars, lowercase, starts_with, starts_with_chars, to_lowercase,
    trim, trim_chars,
};

verus! {

/// Represents the detected intent from transcript analysis
#[derive(Debug, Clone, Copy, PartialEq, Eq, Structural)]
pub enum Intent {
    /// Plain transcription - sanitize and clean the transcript
    PlainTranscription,
    /// Text transformation - modify selected text
    TextTransformation,
    /// Text generation - create new content
    TextGeneration,
    /// Image analysis - analyze selected image
    ImageAnalysis,
    /// Web-assisted answering - search for information
    WebAssistedAnswering,
}

impl Default for Intent {
    fn default() -> (r: Self)
        ensures
            r == Intent::PlainTranscription,
    {
        Intent::PlainTranscription
    }
}

/// The characters of each string of a list.
pub open spec fn views(v: Seq<&str>) -> Seq<Seq<char>> {
    v.map_values(|k: &str| k@)
}

/// Some keyword of `kws` occurs in `text`.
pub open spec fn contains_any(text: Seq<char>, kws: Seq<Seq<char>>) -> bool {
    exists|k: int| 0 <= k < kws.len() && contains(text, #[trigger] kws[k])
}

/// `text` begins with some prefix of `ps`.
pub open spec fn starts_with_any(text: Seq<char>, ps: Seq<Seq<char>>) -> bool {
    exists|k: int| 0 <= k < ps.len() && starts_with(text, #[trigger] ps[k])
}

/// Keywords that indicate text transformation intent
pub open spec fn transformation_keywords() -> Seq<Seq<char>> {
    seq![
        "fix"@, "correct"@, "improve"@, "make it"@, "change"@, "convert"@, "transform"@,
        "rewrite"@, "rephrase"@, "paraphrase"@, "summarize"@, "shorten"@, "expand"@,
        "elaborate"@, "condense"@, "format"@, "capitalize"@, "uppercase"@, "lowercase"@,
        "punctuate"@, "grammar"@, "spell check"@,
    ]
}

/// Keywords that indicate text generation intent
pub open spec fn generation_keywords() -> Seq<Seq<char>> {
    seq![
        "write"@, "create"@, "draft"@, "compose"@, "generate"@, "tell me about"@, "explain"@,
        "describe"@, "outline"@, "brainstorm"@, "suggest"@, "recommend"@, "email"@, "message"@,
        "letter"@, "note"@, "report"@, "summary"@, "blog"@, "article"@,
    ]
}

/// Keywords that indicate image-related intent
pub open spec fn image_keywords() -> Seq<Seq<char>> {
    seq![
        "what is this"@, "what's this"@, "describe this"@, "explain this image"@,
        "what does this show"@, "what's in this"@, "analyze this"@, "look at this"@,
        "see this"@, "image"@, "picture"@, "photo"@, "screenshot"@, "graph"@, "chart"@,
        "diagram"@,
    ]
}

/// Keywords that indicate factual/current information needs
pub open spec fn factual_keywords() -> Seq<Seq<char>> {
    seq![
        "what is"@, "what's"@, "who is"@, "who's"@, "where is"@, "where's"@, "when is"@,
        "when's"@, "how is"@, "how's"@, "why is"@, "why's"@, "current"@, "latest"@,
        "recent"@, "news"@, "today"@, "weather"@, "price"@, "stock"@, "score"@, "update"@,
        "比分"@, "价格"@, "最新"@, "天气"@, "新闻"@, "现在"@, "今天"@,
    ]
}

/// Keywords that indicate uncertainty or need for verification
pub open spec fn uncertainty_keywords() -> Seq<Seq<char>> {
    seq![
        "i think"@, "i believe"@, "maybe"@, "perhaps"@, "probably"@, "possibly"@,
        "not sure"@, "uncertain"@, "i don't know"@, "i'm not sure"@, "verify"@, "check"@,
        "confirm"@, "look up"@, "find out"@, "不确定"@, "可能"@, "也许"@,
    ]
}

/// Question-word prefixes of a factual query
pub open spec fn question_prefixes() -> Seq<Seq<char>> {
    seq![
        "what "@, "what's "@, "who "@, "who's "@, "where "@, "where's "@, "when "@,
        "when's "@, "how "@, "how's "@, "why "@, "why's "@,
    ]
}

/// Phrases that tie a transformation command to the selected text
pub open spec fn transformation_indicators() -> Seq<Seq<char>> {
    seq![
        "this text"@, "this passage"@, "this sentence"@, "it into"@, "convert this"@,
        "change this"@, "fix this"@, "rewrite this"@, "rephrase this"@, "改"@, "修正"@,
        "转换"@,
    ]
}

/// Phrases that mark a request to generate new content
pub open spec fn generation_contexts() -> Seq<Seq<char>> {
    seq![
        "write an"@, "write a"@, "create an"@, "create a"@, "draft an"@, "draft a"@,
        "generate an"@, "generate a"@, "compose an"@, "compose a"@, "给我"@, "写一"@,
        "创建"@, "生成"@,
    ]
}

/// The trimmed transcript begins with a question word followed by a space.
pub open spec fn is_factual_query(t: Seq<char>) -> bool {
    starts_with_any(trim(t), question_prefixes())
}

/// A transformation keyword, and either a phrase pointing at the selected
/// text or "to " together with "into " or "to be ".
pub open spec fn is_transformation_command(t: Seq<char>) -> bool {
    &&& contains_any(t, transformation_keywords())
    &&& (contains_any(t, transformation_indicators()) || (contains(t, "to "@) && (contains(
        t,
        "into "@,
    ) || contains(t, "to be "@))))
}

/// A generation keyword, and either a generation phrase or "about".
pub open spec fn is_generation_request(t: Seq<char>) -> bool {
    &&& contains_any(t, generation_keywords())
    &&& (contains_any(t, generation_contexts()) || (contains(t, "about"@) && contains_any(
        t,
        generation_keywords(),
    )))
}

/// The transcript asks for factual, current or uncertain information.
pub open spec fn asks_for_lookup(t: Seq<char>) -> bool {
    is_factual_query(t) || contains_any(t, factual_keywords()) || contains_any(
        t,
        uncertainty_keywords(),
    )
}

/// The intent of an already lowercased transcript, by the router's rules in
/// priority order.
pub open spec fn intent_of(lower: Seq<char>, selection: SelectionContext) -> Intent {
    if selection.spec_has_image() && contains_any(lower, image_keywords()) {
        Intent::ImageAnalysis
    } else if asks_for_lookup(lower) {
        Intent::WebAssistedAnswering
    } else if selection.spec_has_text() && is_transformation_command(lower) {
        Intent::TextTransformation
    } else if is_generation_request(lower) {
        Intent::TextGeneration
    } else {
        Intent::PlainTranscription
    }
}

fn transformation_keyword_list() -> (v: Vec<&'static str>)
    ensures
        views(v@) == transformation_keywords(),
{
    let v = vec![
        "fix", "correct", "improve", "make it", "change", "convert", "transform", "rewrite",
        "rephrase", "paraphrase", "summarize", "shorten", "expand", "elaborate", "condense",
        "format", "capitalize", "uppercase", "lowercase", "punctuate", "grammar", "spell check",
    ];
    assert(views(v@) =~= transformation_keywords());
    v
}

fn generation_keyword_list() -> (v: Vec<&'static str>)
    ensures
        views(v@) == generation_keywords(),
{
    let v = vec![
        "write", "create", "draft", "compose", "generate", "tell me about", "explain",
        "describe", "outline", "brainstorm", "suggest", "recommend", "email", "message",
        "letter", "note", "report", "summary", "blog", "article",
    ];
    assert(views(v@) =~= generation_keywords());
    v
}

fn image_keyword_list() -> (v: Vec<&'static str>)
    ensures
        views(v@) == image_keywords(),
{
    let v = vec![
        "what is this", "what's this", "describe this", "explain this image",
        "what does this show", "what's in this", "analyze this", "look at this", "see this",
        "image", "picture", "photo", "screenshot", "graph", "chart", "diagram",
    ];
    assert(views(v@) =~= image_keywords());
    v
}

fn factual_keyword_list() -> (v: Vec<&'static str>)
    ensures
        views(v@) == factual_keywords(),
{
    let v = vec![
        "what is", "what's", "who is", "who's", "where is", "where's", "when is", "when's",
        "how is", "how's", "why is", "why's", "current", "latest", "recent", "news", "today",
        "weather", "price", "stock", "score", "update", "比分", "价格", "最新", "天气", "新闻",
        "现在", "今天",
    ];
    assert(views(v@) =~= factual_keywords());
    v
}

fn uncertainty_keyword_list() -> (v: Vec<&'static str>)
    ensures
        views(v@) == uncertainty_keywords(),
{
    let v = vec![
        "i think", "i believe", "maybe", "perhaps", "probably", "possibly", "not sure",
        "uncertain", "i don't know", "i'm not sure", "verify", "check", "confirm", "look up",
        "find out", "不确定", "可能", "也许",
    ];
    assert(views(v@) =~= uncertainty_keywords());
    v
}

fn question_prefix_list() -> (v: Vec<&'static str>)
    ensures
        views(v@) == question_prefixes(),
{
    let v = vec![
        "what ", "what's ", "who ", "who's ", "where ", "where's ", "when ", "when's ", "how ",
        "how's ", "why ", "why's ",
    ];
    assert(views(v@) =~= question_prefixes());
    v
}

fn transformation_indicator_list() -> (v: Vec<&'static str>)
    ensures
        views(v@) == transformation_indicators(),
{
    let v = vec![
        "this text", "this passage", "this sentence", "it into", "convert this", "change this",
        "fix this", "rewrite this", "rephrase this", "改", "修正", "转换",
    ];
    assert(views(v@) =~= transformation_indicators());
    v
}

fn generation_context_list() -> (v: Vec<&'static str>)
    ensures
        views(v@) == generation_contexts(),
{
    let v = vec![
        "write an", "write a", "create an", "create a", "draft an", "draft a", "generate an",
        "generate a", "compose an", "compose a", "给我", "写一", "创建", "生成",
    ];
    assert(views(v@) =~= generation_contexts());
    v
}

/// Intent router that analyzes transcripts to determine processing mode
pub struct IntentRouter;

impl IntentRouter {
    /// Detect intent from transcript and selection context
    ///
    /// Priority order:
    /// 1. ImageAnalysis - if image is selected and transcript mentions image-related keywords
    /// 2. WebAssistedAnswering - if transcript asks for factual/current/uncertain information
    /// 3. TextTransformation - if transcript contains transformation commands and text is selected
    /// 4. TextGeneration - if transcript requests generating new content
    /// 5. PlainTranscription - default fallback
    pub fn detect(transcript: &str, selection: &SelectionContext) -> (r: Intent)
        ensures
            r == intent_of(lowercase(transcript@), *selection),
    {
        let transcript_lower = to_lowercase(transcript);
        Self::detect_lowercased(transcript_lower.as_str(), selection)
    }

    /// Detect the intent of a transcript that is already lowercased, by the
    /// same rules as [`IntentRouter::detect`].
    pub fn detect_lowercased(transcript_lower: &str, selection: &SelectionContext) -> (r: Intent)
        ensures
            r == intent_of(transcript_lower@, *selection),
    {
        let t = chars_of(transcript_lower);
        if selection.has_image() && Self::contains_any(&t, &image_keyword_list()) {
            return Intent::ImageAnalysis;
        }
        if Self::is_factual_query(&t) || Self::contains_any(&t, &factual_keyword_list())
            || Self::contains_any(&t, &uncertainty_keyword_list()) {
            return Intent::WebAssistedAnswering;
        }
        if selection.has_text() && Self::is_transformation_command(&t) {
            return Intent::TextTransformation;
        }
        if Self::is_generation_request(&t) {
            return Intent::TextGeneration;
        }
        Intent::PlainTranscription
    }

    /// Check if transcript contains any of the keywords
    fn contains_any(text: &Vec<char>, keywords: &Vec<&str>) -> (b: bool)
        ensures
            b == contains_any(text@, views(keywords@)),
    {
        let n = keywords.len();
        for i in 0..n
            invariant
                n == keywords@.len(),
                forall|k: int| 0 <= k < i ==> !contains(text@, #[trigger] views(keywords@)[k]),
        {
            let kw = chars_of(keywords[i]);
            if contains_chars(text, &kw) {
                assert(contains(text@, views(keywords@)[i as int]));
                return true;
            }
        }
        false
    }

    /// Check if transcript is a factual query requiring web search
    fn is_factual_query(transcript: &Vec<char>) -> (b: bool)
        ensures
            b == is_factual_query(transcript@),
    {
        // Only actual question-word prefixes count. Auxiliary verbs (is, can,
        // will, do, should, ...) start declarative sentences too often.
        let prefixes = question_prefix_list();
        let trimmed = trim_chars(transcript);
        let n = prefixes.len();
        for i in 0..n
            invariant
                n == prefixes@.len(),
                trimmed@ == trim(transcript@),
                views(prefixes@) == question_prefixes(),
                forall|k: int|
                    0 <= k < i ==> !starts_with(trimmed@, #[trigger] question_prefixes()[k]),
        {
            let p = chars_of(prefixes[i]);
            assert(p@ == question_prefixes()[i as int]);
            if starts_with_chars(&trimmed, &p) {
                return true;
            }
        }
        false
    }

    /// Check if transcript contains a text transformation command
    fn is_transformation_command(transcript: &Vec<char>) -> (b: bool)
        ensures
            b == is_transformation_command(transcript@),
    {
        if !Self::contains_any(transcript, &transformation_keyword_list()) {
            return false;
        }
        // Indicators that the command refers to the selected text.
        Self::contains_any(transcript, &transformation_indicator_list()) || contains_chars(
            transcript,
            &chars_of("to "),
        ) && (contains_chars(transcript, &chars_of("into ")) || contains_chars(
            transcript,
            &chars_of("to be "),
        ))
    }

    /// Check if transcript is a text generation request
    fn is_generation_request(transcript: &Vec<char>) -> (b: bool)
        ensures
            b == is_generation_request(transcript@),
    {
        if !Self::contains_any(transcript, &generation_keyword_list()) {
            return false;
        }
        Self::contains_any(transcript, &generation_context_list()) || (contains_chars(
            transcript,
            &chars_of("about"),
        ) && Self::contains_any(transcript, &generation_keyword_list()))
    }

    /// Get a human-readable description of the intent
    pub fn intent_description(intent: Intent) -> (r: &'static str)
        ensures
            r@ == intent_description_text(intent),
    {
        match intent {
            Intent::PlainTranscription => "Sanitized transcription",
            Intent::TextTransformation => "Text transformation",
            Intent::TextGeneration => "Text generation",
            Intent::ImageAnalysis => "Image analysis",
            Intent::WebAssistedAnswering => "Web-assisted answering",
        }
    }
}

/// Image analysis is chosen only when an image is selected.
pub proof fn law_image_analysis_needs_image(lower: Seq<char>, selection: SelectionContext)
    ensures
        intent_of(lower, selection) == Intent::ImageAnalysis ==> selection.spec_has_image(),
{
}

/// Text transformation is chosen only when text is selected.
pub proof fn law_transformation_needs_text(lower: Seq<char>, selection: SelectionContext)
    ensures
        intent_of(lower, selection) == Intent::TextTransformation ==> selection.spec_has_text(),
{
}

/// A request about a selected image is image analysis, whatever else the
/// transcript asks.
pub proof fn law_image_request_comes_first(lower: Seq<char>, selection: SelectionContext)
    requires
        selection.spec_has_image(),
        contains_any(lower, image_keywords()),
    ensures
        intent_of(lower, selection) == Intent::ImageAnalysis,
{
}

/// Outside image analysis, a transcript that asks for factual, current or
/// uncertain information is answered with web assistance, even when it also
/// holds transformation or generation commands.
pub proof fn law_lookup_precedes_editing(lower: Seq<char>, selection: SelectionContext)
    requires
        asks_for_lookup(lower),
        intent_of(lower, selection) != Intent::ImageAnalysis,
    ensures
        intent_of(lower, selection) == Intent::WebAssistedAnswering,
{
}

/// Without a selection, the intent is web-assisted answering, text
/// generation or plain transcription.
pub proof fn law_without_selection(lower: Seq<char>, selection: SelectionContext)
    requires
        !selection.spec_has_selection(),
    ensures
        intent_of(lower, selection) == Intent::WebAssistedAnswering || intent_of(lower, selection)
            == Intent::TextGeneration || intent_of(lower, selection) == Intent::PlainTranscription,
{
}

/// With text selected, a transformation command is text transformation when
/// neither image analysis nor a lookup applies, whatever generation words
/// the transcript also holds.
pub proof fn law_transformation_precedes_generation(lower: Seq<char>, selection: SelectionContext)
    requires
        selection.spec_has_text(),
        is_transformation_command(lower),
        !asks_for_lookup(lower),
        !(selection.spec_has_image() && contains_any(lower, image_keywords())),
    ensures
        intent_of(lower, selection) == Intent::TextTransformation,
{
}

/// A generation request is text generation when no earlier rule applies:
/// no image analysis, no lookup, and no transformation of selected text.
pub proof fn law_generation_after_transformation(lower: Seq<char>, selection: SelectionContext)
    requires
        is_generation_request(lower),
        !asks_for_lookup(lower),
        !(selection.spec_has_image() && contains_any(lower, image_keywords())),
        !(selection.spec_has_text() && is_transformation_command(lower)),
    ensures
        intent_of(lower, selection) == Intent::TextGeneration,
{
}

/// A transcript that no rule claims is plain transcription.
pub proof fn law_plain_by_default(lower: Seq<char>, selection: SelectionContext)
    requires
        !(selection.spec_has_image() && contains_any(lower, image_keywords())),
        !asks_for_lookup(lower),
        !(selection.spec_has_text() && is_transformation_command(lower)),
        !is_generation_request(lower),
    ensures
        intent_of(lower, selection) == Intent::PlainTranscription,
{
}

/// A lookup question is web-assisted answering unless it is a request about
/// a selected image.
pub proof fn law_lookup_answered_from_web(lower: Seq<char>, selection: SelectionContext)
    requires
        asks_for_lookup(lower),
        !(selection.spec_has_image() && contains_any(lower, image_keywords())),
    ensures
        intent_of(lower, selection) == Intent::WebAssistedAnswering,
{
}

/// The human-readable description of each intent.
pub open spec fn intent_description_text(intent: Intent) -> Seq<char> {
    match intent {
        Intent::PlainTranscription => "Sanitized transcription"@,
        Intent::TextTransformation => "Text transformation"@,
        Intent::TextGeneration => "Text generation"@,
        Intent::ImageAnalysis => "Image analysis"@,
        Intent::WebAssistedAnswering => "Web-assisted answering"@,
    }
}

} // verus!
