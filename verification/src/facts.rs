//! Per-serving nutrition facts of a product, read from the product's JSON
//! document and rendered as an HTML fragment.

use crate::json::{json_object, json_of, json_text, member_of, printed, read_object, text_of, Json};
use vstd::prelude::*;

verus! {

// The fixed parts of the fragment, in the order in which they are written:
// one before each of the six texts, and one after the last.

/// Opens the image tag, up to the image's address.
pub const IMAGE_OPEN: &'static str = "<img src=";

/// Closes the image tag and opens the heading, up to the serving size.
pub const SERVING_OPEN: &'static str =
    " width=25% height=auto>\n         <h1><b>Tamaño de serving</b>: ";

/// Leads from the serving size to the calories.
pub const CALORIES_OPEN: &'static str =
    "<br>\n    <b>Valores nutricionales (por serving)</b>:<br>\n    <b>Calorías (kcal)</b>: ";

/// Leads from the calories to the carbohydrates.
pub const CARBOHYDRATES_OPEN: &'static str = "<br>\n    <b>Carbohidratos</b>: ";

/// Gives the carbohydrates their unit and leads to the proteins.
pub const PROTEINS_OPEN: &'static str = "g<br>\n    <b>Proteína</b>: ";

/// Leads from the proteins to the fat.
pub const FAT_OPEN: &'static str = "<br>\n    <b>Grasa</b>: ";

/// Gives the fat its unit and closes the heading.
pub const FRAGMENT_CLOSE: &'static str = "g</h1>";

/// The HTML fragment for six field texts: an image, a heading with the
/// serving size, and one line each for calories, carbohydrates, proteins and
/// fat. Each text is placed as it is, without quoting or escaping.
pub open spec fn facts_html(
    image: Seq<char>,
    serving_size: Seq<char>,
    calories: Seq<char>,
    carbohydrates: Seq<char>,
    proteins: Seq<char>,
    fat: Seq<char>,
) -> Seq<char> {
    IMAGE_OPEN@ + image + SERVING_OPEN@ + serving_size + CALORIES_OPEN@ + calories
        + CARBOHYDRATES_OPEN@ + carbohydrates + PROTEINS_OPEN@ + proteins + FAT_OPEN@ + fat
        + FRAGMENT_CLOSE@
}

/// The `product` member of a document.
pub open spec fn product(document: Json) -> Json {
    document.member("product"@)
}

/// The product's front image in its English display form.
pub open spec fn front_image(document: Json) -> Json {
    product(document).member("selected_images"@).member("front"@).member("display"@).member(
        "en"@,
    )
}

/// The product's serving size.
pub open spec fn serving_size(document: Json) -> Json {
    product(document).member("serving_size"@)
}

/// The product's nutriment called `name`.
pub open spec fn nutriment(document: Json, name: Seq<char>) -> Json {
    product(document).member("nutriments"@).member(name)
}

/// The HTML fragment for a product document: each field is shown as the JSON
/// text of the value found in the document, and as `null` where the document
/// has no such value.
pub open spec fn document_html(document: Json) -> Seq<char> {
    facts_html(
        printed(front_image(document)),
        printed(serving_size(document)),
        printed(nutriment(document, "energy-kcal_serving"@)),
        printed(nutriment(document, "carbohydrates_serving"@)),
        printed(nutriment(document, "proteins_serving"@)),
        printed(nutriment(document, "fat_serving"@)),
    )
}

/// A document that has no product, or whose `product` is no object, shows
/// `null` in every field.
pub proof fn lemma_without_product(document: Json)
    requires
        !(product(document) is Object),
    ensures
        document_html(document) == facts_html(
            "null"@,
            "null"@,
            "null"@,
            "null"@,
            "null"@,
            "null"@,
        ),
{
}

/// The six texts that the fragment shows.
#[derive(Debug, Clone, PartialEq, Eq)]
pub struct NutritionFacts {
    pub image: String,
    pub serving_size: String,
    pub calories: String,
    pub carbohydrates: String,
    pub proteins: String,
    pub fat: String,
}

impl NutritionFacts {
    /// Each field holds the text of the value that `document` has for it.
    pub open spec fn describes(&self, document: Json) -> bool {
        &&& self.image@ == printed(front_image(document))
        &&& self.serving_size@ == printed(serving_size(document))
        &&& self.calories@ == printed(nutriment(document, "energy-kcal_serving"@))
        &&& self.carbohydrates@ == printed(nutriment(document, "carbohydrates_serving"@))
        &&& self.proteins@ == printed(nutriment(document, "proteins_serving"@))
        &&& self.fat@ == printed(nutriment(document, "fat_serving"@))
    }

    /// The fragment that shows these facts.
    pub open spec fn html(&self) -> Seq<char> {
        facts_html(
            self.image@,
            self.serving_size@,
            self.calories@,
            self.carbohydrates@,
            self.proteins@,
            self.fat@,
        )
    }

    /// Reads the six fields out of a product document.
    pub fn of_document(document: &serde_json::Value) -> (facts: Self)
        ensures
            facts.describes(json_of(*document)),
    {
        let product = member_of(document, "product");
        let images = member_of(product, "selected_images");
        let image = member_of(member_of(member_of(images, "front"), "display"), "en");
        let nutriments = member_of(product, "nutriments");
        NutritionFacts {
            image: text_of(image),
            serving_size: text_of(member_of(product, "serving_size")),
            calories: text_of(member_of(nutriments, "energy-kcal_serving")),
            carbohydrates: text_of(member_of(nutriments, "carbohydrates_serving")),
            proteins: text_of(member_of(nutriments, "proteins_serving")),
            fat: text_of(member_of(nutriments, "fat_serving")),
        }
    }

    /// Renders the facts as an HTML fragment.
    pub fn render(&self) -> (html: String)
        ensures
            html@ == self.html(),
    {
        let mut html = String::from_str(IMAGE_OPEN);
        html.append(self.image.as_str());
        html.append(SERVING_OPEN);
        html.append(self.serving_size.as_str());
        html.append(CALORIES_OPEN);
        html.append(self.calories.as_str());
        html.append(CARBOHYDRATES_OPEN);
        html.append(self.carbohydrates.as_str());
        html.append(PROTEINS_OPEN);
        html.append(self.proteins.as_str());
        html.append(FAT_OPEN);
        html.append(self.fat.as_str());
        html.append(FRAGMENT_CLOSE);
        html
    }
}

/// What is made of a database response: the document's text, as it is kept
/// for inspection, and the fragment that is sent back.
#[derive(Debug, Clone, PartialEq, Eq)]
pub struct Report {
    pub document: String,
    pub html: String,
}

/// Why a response body yields no report.
#[derive(Debug, Clone, Copy, PartialEq, Eq)]
pub enum ReportError {
    /// The body is not the text of one JSON object.
    NotAnObject,
}

impl Report {
    /// Makes the report for a document that has been read.
    pub fn of_document(document: &serde_json::Value) -> (report: Self)
        ensures
            report.document@ == json_text(json_of(*document)),
            report.html@ == document_html(json_of(*document)),
    {
        let facts = NutritionFacts::of_document(document);
        Report { document: text_of(document), html: facts.render() }
    }

    /// Reads the body of a database response and makes its report. The body
    /// must be the text of one JSON object; what the object holds does not
    /// matter, since a field that it lacks is shown as `null`.
    pub fn of_body(body: &[u8]) -> (outcome: Result<Self, ReportError>)
        ensures
            match outcome {
                Ok(report) => {
                    &&& json_object(body@) matches Some(document)
                    &&& document is Object
                    &&& report.document@ == json_text(document)
                    &&& report.html@ == document_html(document)
                },
                Err(error) => json_object(body@) is None && error == ReportError::NotAnObject,
            },
    {
        match read_object(body) {
            Ok(document) => Ok(Report::of_document(&document)),
            Err(_) => Err(ReportError::NotAnObject),
        }
    }
}

} // verus!
