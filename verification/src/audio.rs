//! Audio: the answers to transcription and translation, and speech synthesis.
//! The requests for transcription and translation carry a sampling temperature
//! and are kept by the caller of this library.

use crate::error::APIError;
use crate::fields::{
    bool_field, expect_object, lemma_member_after_write, lemma_no_null_after_write, no_members,
    no_null_member, object, put, read_bool, read_text, text_field, text_json, with_member,
};
use crate::json::{Json, JsonValue};
use crate::resource::{Decode, Encode, Enveloped, RoundTrip};
use crate::string_map::StringMap;
use vstd::prelude::*;
use vstd::string::*;

verus! {

/// The speech recognition model.
pub const WHISPER_1: &'static str = "whisper-1";

/// The speech synthesis model.
pub const TTS_1: &'static str = "tts-1";

/// The speech synthesis model of higher quality.
pub const TTS_1_HD: &'static str = "tts-1-hd";

/// The voice Alloy.
pub const VOICE_ALLOY: &'static str = "alloy";

/// The voice Echo.
pub const VOICE_ECHO: &'static str = "echo";

/// The voice Fable.
pub const VOICE_FABLE: &'static str = "fable";

/// The voice Onyx.
pub const VOICE_ONYX: &'static str = "onyx";

/// The voice Nova.
pub const VOICE_NOVA: &'static str = "nova";

/// The voice Shimmer.
pub const VOICE_SHIMMER: &'static str = "shimmer";

/// The answer to a transcription.
#[derive(Debug)]
pub struct AudioTranscriptionResponse {
    /// The text that was heard.
    pub text: String,
    /// The headers of the response that carried this object.
    pub headers: Option<StringMap>,
}

impl Decode for AudioTranscriptionResponse {
    open spec fn decoded_from(&self, j: JsonValue) -> bool {
        &&& j is Object
        &&& text_field(j, "text"@) == Some(self.text@)
    }

    fn from_json(j: &Json) -> (r: Result<AudioTranscriptionResponse, APIError>)
        ensures
            r matches Ok(value) ==> value.headers is None,
    {
        expect_object(j, "AudioTranscriptionResponse")?;
        let text = read_text(j, "text")?;
        Ok(AudioTranscriptionResponse { text, headers: None })
    }
}

impl Enveloped for AudioTranscriptionResponse {
    open spec fn envelope(&self) -> Option<Map<Seq<char>, Seq<char>>> {
        self.headers.deep_view()
    }

    fn with_headers(self, headers: StringMap) -> (r: AudioTranscriptionResponse)
        ensures
            r == (AudioTranscriptionResponse { headers: Some(headers), ..self }),
    {
        let mut r = self;
        r.headers = Some(headers);
        r
    }
}

/// The answer to a translation.
#[derive(Debug)]
pub struct AudioTranslationResponse {
    /// The translated text.
    pub text: String,
    /// The headers of the response that carried this object.
    pub headers: Option<StringMap>,
}

impl Decode for AudioTranslationResponse {
    open spec fn decoded_from(&self, j: JsonValue) -> bool {
        &&& j is Object
        &&& text_field(j, "text"@) == Some(self.text@)
    }

    fn from_json(j: &Json) -> (r: Result<AudioTranslationResponse, APIError>)
        ensures
            r matches Ok(value) ==> value.headers is None,
    {
        expect_object(j, "AudioTranslationResponse")?;
        let text = read_text(j, "text")?;
        Ok(AudioTranslationResponse { text, headers: None })
    }
}

impl Enveloped for AudioTranslationResponse {
    open spec fn envelope(&self) -> Option<Map<Seq<char>, Seq<char>>> {
        self.headers.deep_view()
    }

    fn with_headers(self, headers: StringMap) -> (r: AudioTranslationResponse)
        ensures
            r == (AudioTranslationResponse { headers: Some(headers), ..self }),
    {
        let mut r = self;
        r.headers = Some(headers);
        r
    }
}

/// The request that turns a text into speech.
#[derive(Debug, Clone)]
pub struct AudioSpeechRequest {
    /// The model to use.
    pub model: String,
    /// The text to speak.
    pub input: String,
    /// The voice to speak with.
    pub voice: String,
    /// The path of the file that receives the audio.
    pub output: String,
}

impl AudioSpeechRequest {
    /// A request to speak `input` with `voice` into the file `output`.
    pub fn new(
        model: String,
        input: String,
        voice: String,
        output: String,
    ) -> (r: AudioSpeechRequest)
        ensures
            r == (AudioSpeechRequest { model, input, voice, output }),
    {
        AudioSpeechRequest { model, input, voice, output }
    }
}

impl Encode for AudioSpeechRequest {
    open spec fn encoding(&self) -> JsonValue {
        JsonValue::Object(
            with_member(
                with_member(
                    with_member(
                        with_member(
                            Seq::empty(),
                            "model"@,
                            Some(JsonValue::Text(self.model@)),
                        ),
                        "input"@,
                        Some(JsonValue::Text(self.input@)),
                    ),
                    "voice"@,
                    Some(JsonValue::Text(self.voice@)),
                ),
                "output"@,
                Some(JsonValue::Text(self.output@)),
            ),
        )
    }

    fn to_json(&self) -> (r: Json) {
        let mut members = no_members();
        put(&mut members, "model", text_json(&self.model));
        put(&mut members, "input", text_json(&self.input));
        put(&mut members, "voice", text_json(&self.voice));
        put(&mut members, "output", text_json(&self.output));
        object(members)
    }
}

impl Decode for AudioSpeechRequest {
    open spec fn decoded_from(&self, j: JsonValue) -> bool {
        &&& j is Object
        &&& text_field(j, "model"@) == Some(self.model@)
        &&& text_field(j, "input"@) == Some(self.input@)
        &&& text_field(j, "voice"@) == Some(self.voice@)
        &&& text_field(j, "output"@) == Some(self.output@)
    }

    fn from_json(j: &Json) -> (r: Result<AudioSpeechRequest, APIError>) {
        expect_object(j, "AudioSpeechRequest")?;
        let model = read_text(j, "model")?;
        let input = read_text(j, "input")?;
        let voice = read_text(j, "voice")?;
        let output = read_text(j, "output")?;
        Ok(AudioSpeechRequest { model, input, voice, output })
    }
}

impl RoundTrip for AudioSpeechRequest {
    proof fn lemma_round_trip(&self) {
        broadcast use lemma_member_after_write;

        reveal_strlit("model");
        reveal_strlit("input");
        reveal_strlit("voice");
        reveal_strlit("output");
        assert("model"@.len() == 5);
        assert("input"@.len() == 5);
        assert("voice"@.len() == 5);
        assert("output"@.len() == 6);
        assert("model"@[0] != "input"@[0]);
        assert("model"@[0] != "voice"@[0]);
        assert("input"@[0] != "voice"@[0]);
    }
}

impl AudioSpeechRequest {
    /// On the wire a field that is set is a member of the object, a field
    /// that is not set is no member at all, and no member is `null`.
    pub proof fn lemma_unset_fields_are_omitted(&self)
        ensures
            no_null_member(self.encoding()->Object_0),
            self.encoding().member("model"@) is Some,
            self.encoding().member("input"@) is Some,
            self.encoding().member("voice"@) is Some,
            self.encoding().member("output"@) is Some,
    {
        broadcast use {lemma_member_after_write, lemma_no_null_after_write};

        reveal_strlit("model");
        reveal_strlit("input");
        reveal_strlit("voice");
        reveal_strlit("output");
        assert("model"@.len() == 5);
        assert("input"@.len() == 5);
        assert("voice"@.len() == 5);
        assert("output"@.len() == 6);
        assert("model"@[0] != "input"@[0]);
        assert("model"@[0] != "voice"@[0]);
        assert("input"@[0] != "voice"@[0]);
    }
}

/// The result of a speech request.
#[derive(Debug)]
pub struct AudioSpeechResponse {
    /// Whether the audio was received and written.
    pub result: bool,
}

impl Decode for AudioSpeechResponse {
    open spec fn decoded_from(&self, j: JsonValue) -> bool {
        &&& j is Object
        &&& bool_field(j, "result"@) == Some(self.result)
    }

    fn from_json(j: &Json) -> (r: Result<AudioSpeechResponse, APIError>) {
        expect_object(j, "AudioSpeechResponse")?;
        let result = read_bool(j, "result")?;
        Ok(AudioSpeechResponse { result })
    }
}

} // verus!
