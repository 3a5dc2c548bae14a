//! The models that requests can name, family by family. Each model has a name
//! for people and requests that carry it as text, and a wire name under which
//! it is written where a request carries the model itself.

use crate::error::APIError;
use crate::fields::{no_members, object, put};
use crate::json::{bad_value, lemma_object_view, Json, JsonValue};
use crate::resource::{Decode, Encode, RoundTrip};
use crate::text::same_text;
use vstd::prelude::*;
use vstd::string::*;

verus! {

/// The models of the GPT-4 family.
#[derive(Debug, Clone, Copy, PartialEq, Eq, Structural)]
pub enum GPT4 {
    /// GPT-4 Turbo.
    GPT4Turbo,
    /// The preview of GPT-4 Turbo.
    GPT4TurboPreview,
    /// GPT-4.
    GPT4,
    /// The preview of GPT-4 with the identifier 0125.
    GPT40125Preview,
    /// GPT-4o.
    GPT4o,
}

impl GPT4 {
    /// The name of a model.
    pub open spec fn name(self) -> Seq<char> {
        match self {
            GPT4::GPT4Turbo => "gpt-4-turbo"@,
            GPT4::GPT4TurboPreview => "gpt-4-turbo-preview"@,
            GPT4::GPT4 => "gpt-4"@,
            GPT4::GPT40125Preview => "gpt-4-0125-preview"@,
            GPT4::GPT4o => "gpt-4o"@,
        }
    }

    /// The model with the given name, if there is one.
    pub open spec fn named(text: Seq<char>) -> Option<GPT4> {
        if text == "gpt-4-turbo"@ {
            Some(GPT4::GPT4Turbo)
        }         else if text == "gpt-4-turbo-preview"@ {
            Some(GPT4::GPT4TurboPreview)
        }         else if text == "gpt-4"@ {
            Some(GPT4::GPT4)
        }         else if text == "gpt-4-0125-preview"@ {
            Some(GPT4::GPT40125Preview)
        }         else if text == "gpt-4o"@ {
            Some(GPT4::GPT4o)
        } else {
            None
        }
    }

    /// The name of this model.
    pub fn as_str(&self) -> (r: &'static str)
        ensures
            r@ == self.name(),
    {
        match self {
            GPT4::GPT4Turbo => "gpt-4-turbo",
            GPT4::GPT4TurboPreview => "gpt-4-turbo-preview",
            GPT4::GPT4 => "gpt-4",
            GPT4::GPT40125Preview => "gpt-4-0125-preview",
            GPT4::GPT4o => "gpt-4o",
        }
    }

    /// The name of this model as an owned string.
    pub fn to_string(&self) -> (r: String)
        ensures
            r@ == self.name(),
    {
        String::from_str(self.as_str())
    }

    /// The model with the given name; `None` for any other text.
    pub fn from_str(text: &str) -> (r: Option<GPT4>)
        ensures
            r == GPT4::named(text@),
    {
        if same_text(text, "gpt-4-turbo") {
            Some(GPT4::GPT4Turbo)
        }         else if same_text(text, "gpt-4-turbo-preview") {
            Some(GPT4::GPT4TurboPreview)
        }         else if same_text(text, "gpt-4") {
            Some(GPT4::GPT4)
        }         else if same_text(text, "gpt-4-0125-preview") {
            Some(GPT4::GPT40125Preview)
        }         else if same_text(text, "gpt-4o") {
            Some(GPT4::GPT4o)
        } else {
            None
        }
    }

    /// The wire name of a model.
    pub open spec fn wire_name(self) -> Seq<char> {
        match self {
            GPT4::GPT4Turbo => "GPT4Turbo"@,
            GPT4::GPT4TurboPreview => "GPT4TurboPreview"@,
            GPT4::GPT4 => "GPT4"@,
            GPT4::GPT40125Preview => "GPT40125Preview"@,
            GPT4::GPT4o => "GPT4o"@,
        }
    }

    /// The model with the given wire name, if there is one.
    pub open spec fn wire_named(text: Seq<char>) -> Option<GPT4> {
        if text == "GPT4Turbo"@ {
            Some(GPT4::GPT4Turbo)
        }         else if text == "GPT4TurboPreview"@ {
            Some(GPT4::GPT4TurboPreview)
        }         else if text == "GPT4"@ {
            Some(GPT4::GPT4)
        }         else if text == "GPT40125Preview"@ {
            Some(GPT4::GPT40125Preview)
        }         else if text == "GPT4o"@ {
            Some(GPT4::GPT4o)
        } else {
            None
        }
    }

    /// The wire name of this model.
    pub fn wire_str(&self) -> (r: &'static str)
        ensures
            r@ == self.wire_name(),
    {
        match self {
            GPT4::GPT4Turbo => "GPT4Turbo",
            GPT4::GPT4TurboPreview => "GPT4TurboPreview",
            GPT4::GPT4 => "GPT4",
            GPT4::GPT40125Preview => "GPT40125Preview",
            GPT4::GPT4o => "GPT4o",
        }
    }

    /// The model with the given wire name; `None` for any other text.
    pub fn from_wire(text: &str) -> (r: Option<GPT4>)
        ensures
            r == GPT4::wire_named(text@),
    {
        if same_text(text, "GPT4Turbo") {
            Some(GPT4::GPT4Turbo)
        }         else if same_text(text, "GPT4TurboPreview") {
            Some(GPT4::GPT4TurboPreview)
        }         else if same_text(text, "GPT4") {
            Some(GPT4::GPT4)
        }         else if same_text(text, "GPT40125Preview") {
            Some(GPT4::GPT40125Preview)
        }         else if same_text(text, "GPT4o") {
            Some(GPT4::GPT4o)
        } else {
            None
        }
    }
}

impl Encode for GPT4 {
    open spec fn encoding(&self) -> JsonValue {
        JsonValue::Text(self.wire_name())
    }

    fn to_json(&self) -> (r: Json) {
        Json::text(self.wire_str())
    }
}

impl Decode for GPT4 {
    open spec fn decoded_from(&self, j: JsonValue) -> bool {
        j.as_text() is Some && GPT4::wire_named(j.as_text()->Some_0) == Some(*self)
    }

    fn from_json(j: &Json) -> (r: Result<GPT4, APIError>) {
        match j.as_text() {
            Some(text) => match GPT4::from_wire(text.as_str()) {
                Some(value) => Ok(value),
                None => Err(bad_value("GPT4")),
            },
            None => Err(bad_value("GPT4")),
        }
    }
}

impl RoundTrip for GPT4 {
    proof fn lemma_round_trip(&self) {
        reveal_strlit("GPT4Turbo");
        reveal_strlit("GPT4TurboPreview");
        reveal_strlit("GPT4");
        reveal_strlit("GPT40125Preview");
        reveal_strlit("GPT4o");
        assert("GPT4Turbo"@.len() == 9);
        assert("GPT4TurboPreview"@.len() == 16);
        assert("GPT4"@.len() == 4);
        assert("GPT40125Preview"@.len() == 15);
        assert("GPT4o"@.len() == 5);
    }
}

/// Every model is found again under its own name.
pub proof fn lemma_gpt4_name_round_trip(value: GPT4)
    ensures
        GPT4::named(value.name()) == Some(value),
{
    reveal_strlit("gpt-4-turbo");
    reveal_strlit("gpt-4-turbo-preview");
    reveal_strlit("gpt-4");
    reveal_strlit("gpt-4-0125-preview");
    reveal_strlit("gpt-4o");
    assert("gpt-4-turbo"@.len() == 11);
    assert("gpt-4-turbo-preview"@.len() == 19);
    assert("gpt-4"@.len() == 5);
    assert("gpt-4-0125-preview"@.len() == 18);
    assert("gpt-4o"@.len() == 6);
}

/// The models of the GPT-3 family.
#[derive(Debug, Clone, Copy, PartialEq, Eq, Structural)]
pub enum GPT3 {
    /// GPT-3.5 Turbo Instruct.
    GPT35TurboInstruct,
    /// GPT-3.5 Turbo.
    GPT35Turbo,
    /// The preview of GPT-3.5 with the identifier 0125.
    GPT350125Preview,
}

impl GPT3 {
    /// The name of a model.
    pub open spec fn name(self) -> Seq<char> {
        match self {
            GPT3::GPT35TurboInstruct => "gpt-3.5-turbo-instruct"@,
            GPT3::GPT35Turbo => "gpt-3.5-turbo"@,
            GPT3::GPT350125Preview => "gpt-3.5-0125-preview"@,
        }
    }

    /// The model with the given name, if there is one.
    pub open spec fn named(text: Seq<char>) -> Option<GPT3> {
        if text == "gpt-3.5-turbo-instruct"@ {
            Some(GPT3::GPT35TurboInstruct)
        }         else if text == "gpt-3.5-turbo"@ {
            Some(GPT3::GPT35Turbo)
        }         else if text == "gpt-3.5-0125-preview"@ {
            Some(GPT3::GPT350125Preview)
        } else {
            None
        }
    }

    /// The name of this model.
    pub fn as_str(&self) -> (r: &'static str)
        ensures
            r@ == self.name(),
    {
        match self {
            GPT3::GPT35TurboInstruct => "gpt-3.5-turbo-instruct",
            GPT3::GPT35Turbo => "gpt-3.5-turbo",
            GPT3::GPT350125Preview => "gpt-3.5-0125-preview",
        }
    }

    /// The name of this model as an owned string.
    pub fn to_string(&self) -> (r: String)
        ensures
            r@ == self.name(),
    {
        String::from_str(self.as_str())
    }

    /// The model with the given name; `None` for any other text.
    pub fn from_str(text: &str) -> (r: Option<GPT3>)
        ensures
            r == GPT3::named(text@),
    {
        if same_text(text, "gpt-3.5-turbo-instruct") {
            Some(GPT3::GPT35TurboInstruct)
        }         else if same_text(text, "gpt-3.5-turbo") {
            Some(GPT3::GPT35Turbo)
        }         else if same_text(text, "gpt-3.5-0125-preview") {
            Some(GPT3::GPT350125Preview)
        } else {
            None
        }
    }

    /// The wire name of a model.
    pub open spec fn wire_name(self) -> Seq<char> {
        match self {
            GPT3::GPT35TurboInstruct => "GPT35TurboInstruct"@,
            GPT3::GPT35Turbo => "GPT35Turbo"@,
            GPT3::GPT350125Preview => "GPT350125Preview"@,
        }
    }

    /// The model with the given wire name, if there is one.
    pub open spec fn wire_named(text: Seq<char>) -> Option<GPT3> {
        if text == "GPT35TurboInstruct"@ {
            Some(GPT3::GPT35TurboInstruct)
        }         else if text == "GPT35Turbo"@ {
            Some(GPT3::GPT35Turbo)
        }         else if text == "GPT350125Preview"@ {
            Some(GPT3::GPT350125Preview)
        } else {
            None
        }
    }

    /// The wire name of this model.
    pub fn wire_str(&self) -> (r: &'static str)
        ensures
            r@ == self.wire_name(),
    {
        match self {
            GPT3::GPT35TurboInstruct => "GPT35TurboInstruct",
            GPT3::GPT35Turbo => "GPT35Turbo",
            GPT3::GPT350125Preview => "GPT350125Preview",
        }
    }

    /// The model with the given wire name; `None` for any other text.
    pub fn from_wire(text: &str) -> (r: Option<GPT3>)
        ensures
            r == GPT3::wire_named(text@),
    {
        if same_text(text, "GPT35TurboInstruct") {
            Some(GPT3::GPT35TurboInstruct)
        }         else if same_text(text, "GPT35Turbo") {
            Some(GPT3::GPT35Turbo)
        }         else if same_text(text, "GPT350125Preview") {
            Some(GPT3::GPT350125Preview)
        } else {
            None
        }
    }
}

impl Encode for GPT3 {
    open spec fn encoding(&self) -> JsonValue {
        JsonValue::Text(self.wire_name())
    }

    fn to_json(&self) -> (r: Json) {
        Json::text(self.wire_str())
    }
}

impl Decode for GPT3 {
    open spec fn decoded_from(&self, j: JsonValue) -> bool {
        j.as_text() is Some && GPT3::wire_named(j.as_text()->Some_0) == Some(*self)
    }

    fn from_json(j: &Json) -> (r: Result<GPT3, APIError>) {
        match j.as_text() {
            Some(text) => match GPT3::from_wire(text.as_str()) {
                Some(value) => Ok(value),
                None => Err(bad_value("GPT3")),
            },
            None => Err(bad_value("GPT3")),
        }
    }
}

impl RoundTrip for GPT3 {
    proof fn lemma_round_trip(&self) {
        reveal_strlit("GPT35TurboInstruct");
        reveal_strlit("GPT35Turbo");
        reveal_strlit("GPT350125Preview");
        assert("GPT35TurboInstruct"@.len() == 18);
        assert("GPT35Turbo"@.len() == 10);
        assert("GPT350125Preview"@.len() == 16);
    }
}

/// Every model is found again under its own name.
pub proof fn lemma_gpt3_name_round_trip(value: GPT3)
    ensures
        GPT3::named(value.name()) == Some(value),
{
    reveal_strlit("gpt-3.5-turbo-instruct");
    reveal_strlit("gpt-3.5-turbo");
    reveal_strlit("gpt-3.5-0125-preview");
    assert("gpt-3.5-turbo-instruct"@.len() == 22);
    assert("gpt-3.5-turbo"@.len() == 13);
    assert("gpt-3.5-0125-preview"@.len() == 20);
}

/// The image models.
#[derive(Debug, Clone, Copy, PartialEq, Eq, Structural)]
pub enum Dalle {
    /// DALL-E 2.
    Dalle2,
    /// The small image model.
    DalleMini,
    /// The large image model.
    DalleMega,
}

impl Dalle {
    /// The name of a model.
    pub open spec fn name(self) -> Seq<char> {
        match self {
            Dalle::Dalle2 => "Dalle2"@,
            Dalle::DalleMini => "DalleMini"@,
            Dalle::DalleMega => "DalleMega"@,
        }
    }

    /// The model with the given name, if there is one.
    pub open spec fn named(text: Seq<char>) -> Option<Dalle> {
        if text == "Dalle2"@ {
            Some(Dalle::Dalle2)
        }         else if text == "DalleMini"@ {
            Some(Dalle::DalleMini)
        }         else if text == "DalleMega"@ {
            Some(Dalle::DalleMega)
        } else {
            None
        }
    }

    /// The name of this model.
    pub fn as_str(&self) -> (r: &'static str)
        ensures
            r@ == self.name(),
    {
        match self {
            Dalle::Dalle2 => "Dalle2",
            Dalle::DalleMini => "DalleMini",
            Dalle::DalleMega => "DalleMega",
        }
    }

    /// The name of this model as an owned string.
    pub fn to_string(&self) -> (r: String)
        ensures
            r@ == self.name(),
    {
        String::from_str(self.as_str())
    }

    /// The model with the given name; `None` for any other text.
    pub fn from_str(text: &str) -> (r: Option<Dalle>)
        ensures
            r == Dalle::named(text@),
    {
        if same_text(text, "Dalle2") {
            Some(Dalle::Dalle2)
        }         else if same_text(text, "DalleMini") {
            Some(Dalle::DalleMini)
        }         else if same_text(text, "DalleMega") {
            Some(Dalle::DalleMega)
        } else {
            None
        }
    }
}

impl Encode for Dalle {
    open spec fn encoding(&self) -> JsonValue {
        JsonValue::Text(self.name())
    }

    fn to_json(&self) -> (r: Json) {
        Json::text(self.as_str())
    }
}

impl Decode for Dalle {
    open spec fn decoded_from(&self, j: JsonValue) -> bool {
        j.as_text() is Some && Dalle::named(j.as_text()->Some_0) == Some(*self)
    }

    fn from_json(j: &Json) -> (r: Result<Dalle, APIError>) {
        match j.as_text() {
            Some(text) => match Dalle::from_str(text.as_str()) {
                Some(value) => Ok(value),
                None => Err(bad_value("Dalle")),
            },
            None => Err(bad_value("Dalle")),
        }
    }
}

impl RoundTrip for Dalle {
    proof fn lemma_round_trip(&self) {
        reveal_strlit("Dalle2");
        reveal_strlit("DalleMini");
        reveal_strlit("DalleMega");
        assert("Dalle2"@.len() == 6);
        assert("DalleMini"@.len() == 9);
        assert("DalleMega"@.len() == 9);
        assert("DalleMini"@[6] != "DalleMega"@[6]);
    }
}

/// The speech recognition models.
#[derive(Debug, Clone, Copy, PartialEq, Eq, Structural)]
pub enum Whisper {
    /// The large model.
    WhisperLarge,
    /// The medium model.
    WhisperMedium,
    /// The small model.
    WhisperSmall,
    /// The tiny model.
    WhisperTiny,
}

impl Whisper {
    /// The name of a model.
    pub open spec fn name(self) -> Seq<char> {
        match self {
            Whisper::WhisperLarge => "WhisperLarge"@,
            Whisper::WhisperMedium => "WhisperMedium"@,
            Whisper::WhisperSmall => "WhisperSmall"@,
            Whisper::WhisperTiny => "WhisperTiny"@,
        }
    }

    /// The model with the given name, if there is one.
    pub open spec fn named(text: Seq<char>) -> Option<Whisper> {
        if text == "WhisperLarge"@ {
            Some(Whisper::WhisperLarge)
        }         else if text == "WhisperMedium"@ {
            Some(Whisper::WhisperMedium)
        }         else if text == "WhisperSmall"@ {
            Some(Whisper::WhisperSmall)
        }         else if text == "WhisperTiny"@ {
            Some(Whisper::WhisperTiny)
        } else {
            None
        }
    }

    /// The name of this model.
    pub fn as_str(&self) -> (r: &'static str)
        ensures
            r@ == self.name(),
    {
        match self {
            Whisper::WhisperLarge => "WhisperLarge",
            Whisper::WhisperMedium => "WhisperMedium",
            Whisper::WhisperSmall => "WhisperSmall",
            Whisper::WhisperTiny => "WhisperTiny",
        }
    }

    /// The name of this model as an owned string.
    pub fn to_string(&self) -> (r: String)
        ensures
            r@ == self.name(),
    {
        String::from_str(self.as_str())
    }

    /// The model with the given name; `None` for any other text.
    pub fn from_str(text: &str) -> (r: Option<Whisper>)
        ensures
            r == Whisper::named(text@),
    {
        if same_text(text, "WhisperLarge") {
            Some(Whisper::WhisperLarge)
        }         else if same_text(text, "WhisperMedium") {
            Some(Whisper::WhisperMedium)
        }         else if same_text(text, "WhisperSmall") {
            Some(Whisper::WhisperSmall)
        }         else if same_text(text, "WhisperTiny") {
            Some(Whisper::WhisperTiny)
        } else {
            None
        }
    }
}

impl Encode for Whisper {
    open spec fn encoding(&self) -> JsonValue {
        JsonValue::Text(self.name())
    }

    fn to_json(&self) -> (r: Json) {
        Json::text(self.as_str())
    }
}

impl Decode for Whisper {
    open spec fn decoded_from(&self, j: JsonValue) -> bool {
        j.as_text() is Some && Whisper::named(j.as_text()->Some_0) == Some(*self)
    }

    fn from_json(j: &Json) -> (r: Result<Whisper, APIError>) {
        match j.as_text() {
            Some(text) => match Whisper::from_str(text.as_str()) {
                Some(value) => Ok(value),
                None => Err(bad_value("Whisper")),
            },
            None => Err(bad_value("Whisper")),
        }
    }
}

impl RoundTrip for Whisper {
    proof fn lemma_round_trip(&self) {
        reveal_strlit("WhisperLarge");
        reveal_strlit("WhisperMedium");
        reveal_strlit("WhisperSmall");
        reveal_strlit("WhisperTiny");
        assert("WhisperLarge"@.len() == 12);
        assert("WhisperMedium"@.len() == 13);
        assert("WhisperSmall"@.len() == 12);
        assert("WhisperTiny"@.len() == 11);
        assert("WhisperLarge"@[7] != "WhisperSmall"@[7]);
    }
}

/// The models that embed images and text together.
#[derive(Debug, Clone, Copy, PartialEq, Eq, Structural)]
pub enum ClipModels {
    /// CLIP with the ViT-B/32 architecture.
    ClipVitBasePatch32,
}

impl ClipModels {
    /// The name of a model.
    pub open spec fn name(self) -> Seq<char> {
        match self {
            ClipModels::ClipVitBasePatch32 => "ClipVitBasePatch32"@,
        }
    }

    /// The model with the given name, if there is one.
    pub open spec fn named(text: Seq<char>) -> Option<ClipModels> {
        if text == "ClipVitBasePatch32"@ {
            Some(ClipModels::ClipVitBasePatch32)
        } else {
            None
        }
    }

    /// The name of this model.
    pub fn as_str(&self) -> (r: &'static str)
        ensures
            r@ == self.name(),
    {
        match self {
            ClipModels::ClipVitBasePatch32 => "ClipVitBasePatch32",
        }
    }

    /// The name of this model as an owned string.
    pub fn to_string(&self) -> (r: String)
        ensures
            r@ == self.name(),
    {
        String::from_str(self.as_str())
    }

    /// The model with the given name; `None` for any other text.
    pub fn from_str(text: &str) -> (r: Option<ClipModels>)
        ensures
            r == ClipModels::named(text@),
    {
        if same_text(text, "ClipVitBasePatch32") {
            Some(ClipModels::ClipVitBasePatch32)
        } else {
            None
        }
    }
}

impl Encode for ClipModels {
    open spec fn encoding(&self) -> JsonValue {
        JsonValue::Text(self.name())
    }

    fn to_json(&self) -> (r: Json) {
        Json::text(self.as_str())
    }
}

impl Decode for ClipModels {
    open spec fn decoded_from(&self, j: JsonValue) -> bool {
        j.as_text() is Some && ClipModels::named(j.as_text()->Some_0) == Some(*self)
    }

    fn from_json(j: &Json) -> (r: Result<ClipModels, APIError>) {
        match j.as_text() {
            Some(text) => match ClipModels::from_str(text.as_str()) {
                Some(value) => Ok(value),
                None => Err(bad_value("ClipModels")),
            },
            None => Err(bad_value("ClipModels")),
        }
    }
}

impl RoundTrip for ClipModels {
    proof fn lemma_round_trip(&self) {
        reveal_strlit("ClipVitBasePatch32");
        assert("ClipVitBasePatch32"@.len() == 18);
    }
}

/// The text embedding models.
#[derive(Debug, Clone, Copy, PartialEq, Eq, Structural)]
pub enum EmbeddingsModels {
    /// Ada, version 002.
    TextEmbeddingAda002,
    /// Babbage, version 001.
    TextEmbeddingBabbage001,
    /// Babbage, version 002.
    TextEmbeddingBabbage002,
    /// Curie, version 001.
    TextEmbeddingCurie001,
    /// Curie, version 002.
    TextEmbeddingCurie002,
    /// Davinci, version 001.
    TextEmbeddingDavinci001,
    /// Davinci, version 002.
    TextEmbeddingDavinci002,
}

impl EmbeddingsModels {
    /// The name of a model.
    pub open spec fn name(self) -> Seq<char> {
        match self {
            EmbeddingsModels::TextEmbeddingAda002 => "TextEmbeddingAda002"@,
            EmbeddingsModels::TextEmbeddingBabbage001 => "TextEmbeddingBabbage001"@,
            EmbeddingsModels::TextEmbeddingBabbage002 => "TextEmbeddingBabbage002"@,
            EmbeddingsModels::TextEmbeddingCurie001 => "TextEmbeddingCurie001"@,
            EmbeddingsModels::TextEmbeddingCurie002 => "TextEmbeddingCurie002"@,
            EmbeddingsModels::TextEmbeddingDavinci001 => "TextEmbeddingDavinci001"@,
            EmbeddingsModels::TextEmbeddingDavinci002 => "TextEmbeddingDavinci002"@,
        }
    }

    /// The model with the given name, if there is one.
    pub open spec fn named(text: Seq<char>) -> Option<EmbeddingsModels> {
        if text == "TextEmbeddingAda002"@ {
            Some(EmbeddingsModels::TextEmbeddingAda002)
        }         else if text == "TextEmbeddingBabbage001"@ {
            Some(EmbeddingsModels::TextEmbeddingBabbage001)
        }         else if text == "TextEmbeddingBabbage002"@ {
            Some(EmbeddingsModels::TextEmbeddingBabbage002)
        }         else if text == "TextEmbeddingCurie001"@ {
            Some(EmbeddingsModels::TextEmbeddingCurie001)
        }         else if text == "TextEmbeddingCurie002"@ {
            Some(EmbeddingsModels::TextEmbeddingCurie002)
        }         else if text == "TextEmbeddingDavinci001"@ {
            Some(EmbeddingsModels::TextEmbeddingDavinci001)
        }         else if text == "TextEmbeddingDavinci002"@ {
            Some(EmbeddingsModels::TextEmbeddingDavinci002)
        } else {
            None
        }
    }

    /// The name of this model.
    pub fn as_str(&self) -> (r: &'static str)
        ensures
            r@ == self.name(),
    {
        match self {
            EmbeddingsModels::TextEmbeddingAda002 => "TextEmbeddingAda002",
            EmbeddingsModels::TextEmbeddingBabbage001 => "TextEmbeddingBabbage001",
            EmbeddingsModels::TextEmbeddingBabbage002 => "TextEmbeddingBabbage002",
            EmbeddingsModels::TextEmbeddingCurie001 => "TextEmbeddingCurie001",
            EmbeddingsModels::TextEmbeddingCurie002 => "TextEmbeddingCurie002",
            EmbeddingsModels::TextEmbeddingDavinci001 => "TextEmbeddingDavinci001",
            EmbeddingsModels::TextEmbeddingDavinci002 => "TextEmbeddingDavinci002",
        }
    }

    /// The name of this model as an owned string.
    pub fn to_string(&self) -> (r: String)
        ensures
            r@ == self.name(),
    {
        String::from_str(self.as_str())
    }

    /// The model with the given name; `None` for any other text.
    pub fn from_str(text: &str) -> (r: Option<EmbeddingsModels>)
        ensures
            r == EmbeddingsModels::named(text@),
    {
        if same_text(text, "TextEmbeddingAda002") {
            Some(EmbeddingsModels::TextEmbeddingAda002)
        }         else if same_text(text, "TextEmbeddingBabbage001") {
            Some(EmbeddingsModels::TextEmbeddingBabbage001)
        }         else if same_text(text, "TextEmbeddingBabbage002") {
            Some(EmbeddingsModels::TextEmbeddingBabbage002)
        }         else if same_text(text, "TextEmbeddingCurie001") {
            Some(EmbeddingsModels::TextEmbeddingCurie001)
        }         else if same_text(text, "TextEmbeddingCurie002") {
            Some(EmbeddingsModels::TextEmbeddingCurie002)
        }         else if same_text(text, "TextEmbeddingDavinci001") {
            Some(EmbeddingsModels::TextEmbeddingDavinci001)
        }         else if same_text(text, "TextEmbeddingDavinci002") {
            Some(EmbeddingsModels::TextEmbeddingDavinci002)
        } else {
            None
        }
    }
}

impl Encode for EmbeddingsModels {
    open spec fn encoding(&self) -> JsonValue {
        JsonValue::Text(self.name())
    }

    fn to_json(&self) -> (r: Json) {
        Json::text(self.as_str())
    }
}

impl Decode for EmbeddingsModels {
    open spec fn decoded_from(&self, j: JsonValue) -> bool {
        j.as_text() is Some && EmbeddingsModels::named(j.as_text()->Some_0) == Some(*self)
    }

    fn from_json(j: &Json) -> (r: Result<EmbeddingsModels, APIError>) {
        match j.as_text() {
            Some(text) => match EmbeddingsModels::from_str(text.as_str()) {
                Some(value) => Ok(value),
                None => Err(bad_value("EmbeddingsModels")),
            },
            None => Err(bad_value("EmbeddingsModels")),
        }
    }
}

impl RoundTrip for EmbeddingsModels {
    proof fn lemma_round_trip(&self) {
        reveal_strlit("TextEmbeddingAda002");
        reveal_strlit("TextEmbeddingBabbage001");
        reveal_strlit("TextEmbeddingBabbage002");
        reveal_strlit("TextEmbeddingCurie001");
        reveal_strlit("TextEmbeddingCurie002");
        reveal_strlit("TextEmbeddingDavinci001");
        reveal_strlit("TextEmbeddingDavinci002");
        assert("TextEmbeddingAda002"@.len() == 19);
        assert("TextEmbeddingBabbage001"@.len() == 23);
        assert("TextEmbeddingBabbage002"@.len() == 23);
        assert("TextEmbeddingCurie001"@.len() == 21);
        assert("TextEmbeddingCurie002"@.len() == 21);
        assert("TextEmbeddingDavinci001"@.len() == 23);
        assert("TextEmbeddingDavinci002"@.len() == 23);
        assert("TextEmbeddingBabbage001"@[22] != "TextEmbeddingBabbage002"@[22]);
        assert("TextEmbeddingBabbage001"@[13] != "TextEmbeddingDavinci001"@[13]);
        assert("TextEmbeddingBabbage001"@[13] != "TextEmbeddingDavinci002"@[13]);
        assert("TextEmbeddingBabbage002"@[13] != "TextEmbeddingDavinci001"@[13]);
        assert("TextEmbeddingBabbage002"@[13] != "TextEmbeddingDavinci002"@[13]);
        assert("TextEmbeddingCurie001"@[20] != "TextEmbeddingCurie002"@[20]);
        assert("TextEmbeddingDavinci001"@[22] != "TextEmbeddingDavinci002"@[22]);
    }
}

/// A model of any family.
///
/// On the wire a model is an object with one member: the name of the
/// family, and as its value the wire name of the model within the family.
#[derive(Debug, Clone, Copy, PartialEq, Eq, Structural)]
pub enum Model {
    /// A model of the GPT-4 family.
    GPT4(GPT4),
    /// A model of the GPT-3 family.
    GPT3(GPT3),
    /// An image model.
    Dalle(Dalle),
    /// A speech recognition model.
    Whisper(Whisper),
    /// A model that embeds images and text together.
    Clip(ClipModels),
    /// A text embedding model.
    Embedding(EmbeddingsModels),
}

impl Model {
    /// The name of a model: the name that it has within its family.
    pub open spec fn name(self) -> Seq<char> {
        match self {
            Model::GPT4(model) => model.name(),
            Model::GPT3(model) => model.name(),
            Model::Dalle(model) => model.name(),
            Model::Whisper(model) => model.name(),
            Model::Clip(model) => model.name(),
            Model::Embedding(model) => model.name(),
        }
    }

    /// The name of the family of a model.
    pub open spec fn family(self) -> Seq<char> {
        match self {
            Model::GPT4(_) => "GPT4"@,
            Model::GPT3(_) => "GPT3"@,
            Model::Dalle(_) => "Dalle"@,
            Model::Whisper(_) => "Whisper"@,
            Model::Clip(_) => "Clip"@,
            Model::Embedding(_) => "Embedding"@,
        }
    }

    /// The wire name of a model within its family.
    pub open spec fn wire_name(self) -> Seq<char> {
        match self {
            Model::GPT4(model) => model.wire_name(),
            Model::GPT3(model) => model.wire_name(),
            Model::Dalle(model) => model.name(),
            Model::Whisper(model) => model.name(),
            Model::Clip(model) => model.name(),
            Model::Embedding(model) => model.name(),
        }
    }

    /// The model with the given family and wire name, if there is one.
    pub open spec fn wire_named(family: Seq<char>, text: Seq<char>) -> Option<Model> {
        if family == "GPT4"@ {
            match GPT4::wire_named(text) {
                Some(model) => Some(Model::GPT4(model)),
                None => None,
            }
        }         else if family == "GPT3"@ {
            match GPT3::wire_named(text) {
                Some(model) => Some(Model::GPT3(model)),
                None => None,
            }
        }         else if family == "Dalle"@ {
            match Dalle::named(text) {
                Some(model) => Some(Model::Dalle(model)),
                None => None,
            }
        }         else if family == "Whisper"@ {
            match Whisper::named(text) {
                Some(model) => Some(Model::Whisper(model)),
                None => None,
            }
        }         else if family == "Clip"@ {
            match ClipModels::named(text) {
                Some(model) => Some(Model::Clip(model)),
                None => None,
            }
        }         else if family == "Embedding"@ {
            match EmbeddingsModels::named(text) {
                Some(model) => Some(Model::Embedding(model)),
                None => None,
            }
        } else {
            None
        }
    }

    /// The name of this model.
    pub fn to_string(&self) -> (r: String)
        ensures
            r@ == self.name(),
    {
        match self {
            Model::GPT4(model) => model.to_string(),
            Model::GPT3(model) => model.to_string(),
            Model::Dalle(model) => model.to_string(),
            Model::Whisper(model) => model.to_string(),
            Model::Clip(model) => model.to_string(),
            Model::Embedding(model) => model.to_string(),
        }
    }

    /// The name of the family of this model.
    pub fn family_str(&self) -> (r: &'static str)
        ensures
            r@ == self.family(),
    {
        match self {
            Model::GPT4(_) => "GPT4",
            Model::GPT3(_) => "GPT3",
            Model::Dalle(_) => "Dalle",
            Model::Whisper(_) => "Whisper",
            Model::Clip(_) => "Clip",
            Model::Embedding(_) => "Embedding",
        }
    }

    /// The wire name of this model within its family.
    pub fn wire_str(&self) -> (r: &'static str)
        ensures
            r@ == self.wire_name(),
    {
        match self {
            Model::GPT4(model) => model.wire_str(),
            Model::GPT3(model) => model.wire_str(),
            Model::Dalle(model) => model.as_str(),
            Model::Whisper(model) => model.as_str(),
            Model::Clip(model) => model.as_str(),
            Model::Embedding(model) => model.as_str(),
        }
    }

    /// The model with the given family and wire name; `None` where there is
    /// none.
    pub fn from_wire(family: &str, text: &str) -> (r: Option<Model>)
        ensures
            r == Model::wire_named(family@, text@),
    {
        if same_text(family, "GPT4") {
            match GPT4::from_wire(text) {
                Some(model) => Some(Model::GPT4(model)),
                None => None,
            }
        }         else if same_text(family, "GPT3") {
            match GPT3::from_wire(text) {
                Some(model) => Some(Model::GPT3(model)),
                None => None,
            }
        }         else if same_text(family, "Dalle") {
            match Dalle::from_str(text) {
                Some(model) => Some(Model::Dalle(model)),
                None => None,
            }
        }         else if same_text(family, "Whisper") {
            match Whisper::from_str(text) {
                Some(model) => Some(Model::Whisper(model)),
                None => None,
            }
        }         else if same_text(family, "Clip") {
            match ClipModels::from_str(text) {
                Some(model) => Some(Model::Clip(model)),
                None => None,
            }
        }         else if same_text(family, "Embedding") {
            match EmbeddingsModels::from_str(text) {
                Some(model) => Some(Model::Embedding(model)),
                None => None,
            }
        } else {
            None
        }
    }
}

impl Default for Model {
    fn default() -> (r: Model)
        ensures
            r == Model::GPT4(GPT4::GPT4o),
    {
        Model::GPT4(GPT4::GPT4o)
    }
}

impl Encode for Model {
    open spec fn encoding(&self) -> JsonValue {
        JsonValue::Object(seq![(self.family(), JsonValue::Text(self.wire_name()))])
    }

    fn to_json(&self) -> (r: Json) {
        let mut members = no_members();
        put(&mut members, self.family_str(), Some(Json::text(self.wire_str())));
        let r = object(members);
        assert(r@->Object_0 =~= seq![(self.family(), JsonValue::Text(self.wire_name()))]);
        r
    }
}

impl Decode for Model {
    open spec fn decoded_from(&self, j: JsonValue) -> bool {
        &&& j is Object
        &&& j->Object_0.len() == 1
        &&& j->Object_0[0].1 is Text
        &&& Model::wire_named(j->Object_0[0].0, j->Object_0[0].1->Text_0) == Some(*self)
    }

    fn from_json(j: &Json) -> (r: Result<Model, APIError>) {
        match j {
            Json::Object(members) => {
                proof {
                    lemma_object_view(*members);
                }
                if members.len() != 1 {
                    return Err(bad_value("Model"));
                }
                match members[0].1.as_text() {
                    Some(text) => match Model::from_wire(members[0].0.as_str(), text.as_str()) {
                        Some(model) => Ok(model),
                        None => Err(bad_value("Model")),
                    },
                    None => Err(bad_value("Model")),
                }
            },
            _ => Err(bad_value("Model")),
        }
    }
}

impl RoundTrip for Model {
    proof fn lemma_round_trip(&self) {
        reveal_strlit("GPT4");
        reveal_strlit("GPT3");
        reveal_strlit("Dalle");
        reveal_strlit("Whisper");
        reveal_strlit("Clip");
        reveal_strlit("Embedding");
        assert("GPT4"@.len() == 4 && "GPT3"@.len() == 4 && "Dalle"@.len() == 5);
        assert("Whisper"@.len() == 7 && "Clip"@.len() == 4 && "Embedding"@.len() == 9);
        assert("GPT4"@[3] != "GPT3"@[3]);
        assert("GPT4"@[0] != "Clip"@[0]);
        assert("GPT3"@[0] != "Clip"@[0]);
        match self {
            Model::GPT4(model) => model.lemma_round_trip(),
            Model::GPT3(model) => model.lemma_round_trip(),
            Model::Dalle(model) => model.lemma_round_trip(),
            Model::Whisper(model) => model.lemma_round_trip(),
            Model::Clip(model) => model.lemma_round_trip(),
            Model::Embedding(model) => model.lemma_round_trip(),
        }
    }
}

} // verus!
