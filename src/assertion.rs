use vstd::prelude::*;
use serde_json::Value;
use crate::guidance::GuidanceType;

verus! {

#[verifier::external_type_specification]
#[verifier::external_body]
pub struct ExValue(serde_json::Value);

/// Relies on the `Clone` that serde_json derives for `Value`: a deep copy of the same JSON value.
pub assume_specification[ <serde_json::Value as Clone>::clone ](v: &serde_json::Value) -> (r:
    serde_json::Value)
    ensures
        r == *v,
;

/// Relies on serde_json's `Map::new` and `Value::Object`: a JSON object with no fields.
#[verifier::external_body]
fn empty_object() -> (r: Value) {
    Value::Object(serde_json::Map::new())
}

/// Relies on serde_json's `Value::Null`: the JSON value `null`.
#[verifier::external_body]
fn null_value() -> (r: Value) {
    Value::Null
}

/// The test-property category of an assertion site.
#[derive(Clone, Copy, Debug, PartialEq, Eq, Structural)]
pub enum AssertType {
    Always,
    Sometimes,
    Reachability,
}

/// Where a site stands in the source; diagnostic only, never part of a site's identity.
#[derive(Debug)]
pub struct AntithesisLocationInfo {
    pub class: String,
    pub function: String,
    pub file: String,
    pub begin_line: u32,
    pub begin_column: u32,
}

/// The descriptor of one assertion site, announced once to the backend.
#[derive(Debug)]
pub struct AssertionCatalogInfo {
    pub assert_type: AssertType,
    pub display_type: String,
    pub condition: bool,
    pub message: String,
    pub class: String,
    pub function: String,
    pub file: String,
    pub begin_line: u32,
    pub begin_column: u32,
    pub must_hit: bool,
    pub id: String,
}

/// The descriptor of one guidance site, announced once to the backend.
#[derive(Debug)]
pub struct GuidanceCatalogInfo {
    pub guidance_type: GuidanceType,
    pub message: String,
    pub id: String,
    pub class: String,
    pub function: String,
    pub file: String,
    pub begin_line: u32,
    pub begin_column: u32,
    pub maximize: bool,
}

/// One evaluation of an assertion site: a registration (`hit` false) or a real occurrence.
#[derive(Debug)]
pub struct AssertionInfo {
    pub assert_type: AssertType,
    pub display_type: String,
    pub condition: bool,
    pub message: String,
    pub location: AntithesisLocationInfo,
    pub hit: bool,
    pub must_hit: bool,
    pub id: String,
    pub details: Value,
}

/// One guidance report of a site: a registration (`hit` false) or a real observation.
#[derive(Debug)]
pub struct GuidanceInfo {
    pub guidance_type: GuidanceType,
    pub message: String,
    pub id: String,
    pub location: AntithesisLocationInfo,
    pub maximize: bool,
    pub guidance_data: Value,
    pub hit: bool,
}

/// Whether `loc` holds the given location fields.
pub open spec fn location_is(
    loc: AntithesisLocationInfo,
    class: Seq<char>,
    function: Seq<char>,
    file: Seq<char>,
    begin_line: u32,
    begin_column: u32,
) -> bool {
    &&& loc.class@ == class
    &&& loc.function@ == function
    &&& loc.file@ == file
    &&& loc.begin_line == begin_line
    &&& loc.begin_column == begin_column
}

/// Whether `r` is the registration record of the assertion site `site`.
pub open spec fn is_assertion_registration(r: AssertionInfo, site: AssertionCatalogInfo) -> bool {
    &&& r.assert_type == site.assert_type
    &&& r.display_type@ == site.display_type@
    &&& !r.condition
    &&& r.message@ == site.message@
    &&& location_is(
        r.location,
        site.class@,
        site.function@,
        site.file@,
        site.begin_line,
        site.begin_column,
    )
    &&& !r.hit
    &&& r.must_hit == site.must_hit
    &&& r.id@ == site.id@
}

/// Whether `r` is the registration record of the guidance site `site`.
pub open spec fn is_guidance_registration(r: GuidanceInfo, site: GuidanceCatalogInfo) -> bool {
    &&& r.guidance_type == site.guidance_type
    &&& r.message@ == site.message@
    &&& r.id@ == site.id@
    &&& location_is(
        r.location,
        site.class@,
        site.function@,
        site.file@,
        site.begin_line,
        site.begin_column,
    )
    &&& r.maximize == site.maximize
    &&& !r.hit
}

impl AssertionInfo {
    /// An evaluation record holding the given fields and a copy of `details`.
    pub fn new(
        assert_type: AssertType,
        display_type: String,
        condition: bool,
        message: String,
        class: String,
        function: String,
        file: String,
        begin_line: u32,
        begin_column: u32,
        hit: bool,
        must_hit: bool,
        id: String,
        details: &Value,
    ) -> (r: AssertionInfo)
        ensures
            r.assert_type == assert_type,
            r.display_type == display_type,
            r.condition == condition,
            r.message == message,
            r.location == (AntithesisLocationInfo {
                class,
                function,
                file,
                begin_line,
                begin_column,
            }),
            r.hit == hit,
            r.must_hit == must_hit,
            r.id == id,
            r.details == *details,
    {
        let location = AntithesisLocationInfo { class, function, file, begin_line, begin_column };
        AssertionInfo {
            assert_type,
            display_type,
            condition,
            message,
            location,
            hit,
            must_hit,
            id,
            details: details.clone(),
        }
    }

    /// The registration record of `site`: not hit, condition false, empty details.
    pub fn registration(site: &AssertionCatalogInfo) -> (r: AssertionInfo)
        ensures
            is_assertion_registration(r, *site),
    {
        let location = AntithesisLocationInfo {
            class: site.class.clone(),
            function: site.function.clone(),
            file: site.file.clone(),
            begin_line: site.begin_line,
            begin_column: site.begin_column,
        };
        AssertionInfo {
            assert_type: site.assert_type,
            display_type: site.display_type.clone(),
            condition: false,
            message: site.message.clone(),
            location,
            hit: false,
            must_hit: site.must_hit,
            id: site.id.clone(),
            details: empty_object(),
        }
    }
}

impl GuidanceInfo {
    /// A guidance record holding the given fields.
    pub fn new(
        guidance_type: GuidanceType,
        message: String,
        id: String,
        class: String,
        function: String,
        file: String,
        begin_line: u32,
        begin_column: u32,
        maximize: bool,
        guidance_data: Value,
        hit: bool,
    ) -> (r: GuidanceInfo)
        ensures
            r.guidance_type == guidance_type,
            r.message == message,
            r.id == id,
            r.location == (AntithesisLocationInfo {
                class,
                function,
                file,
                begin_line,
                begin_column,
            }),
            r.maximize == maximize,
            r.guidance_data == guidance_data,
            r.hit == hit,
    {
        let location = AntithesisLocationInfo { class, function, file, begin_line, begin_column };
        GuidanceInfo { guidance_type, message, id, location, maximize, guidance_data, hit }
    }

    /// The registration record of `site`: not hit, with `null` as its data.
    pub fn registration(site: &GuidanceCatalogInfo) -> (r: GuidanceInfo)
        ensures
            is_guidance_registration(r, *site),
    {
        let location = AntithesisLocationInfo {
            class: site.class.clone(),
            function: site.function.clone(),
            file: site.file.clone(),
            begin_line: site.begin_line,
            begin_column: site.begin_column,
        };
        GuidanceInfo {
            guidance_type: site.guidance_type,
            message: site.message.clone(),
            id: site.id.clone(),
            location,
            maximize: site.maximize,
            guidance_data: null_value(),
            hit: false,
        }
    }
}

} // verus!
