//! The tool definitions the server lists: each tool's name, what it does,
//! and the JSON schema of its arguments.
use vstd::prelude::*;
use vstd::string::*;
use crate::json::{
    Json, JsonNumber, bool_of, empty_object, float_text, i64_of, integers_of, is_object_with,
    object1, object2, object3, object4, object5, str_of, strings_of,
};
use crate::mcp::{ToolKind, all_tools};

verus! {

/// What the definition of a tool says it does.
pub open spec fn tool_description(k: ToolKind) -> Seq<char> {
    match k {
        ToolKind::Screenshot => "Capture the current X11 screen and return it as a downsampled PNG. By default the image is scaled to 25% of the original (cuts image tokens ~10×) — still readable for layout and most UI text. Use `scale` to override (0.1–1.0). When you need exact details, pass `scale` 0.5–1.0; prefer `region` to crop instead of upscaling."@,
        ToolKind::XdoClick => "Click at the current cursor location or at given coordinates. Destructive: prefer screenshot first."@,
        ToolKind::XdoMove => "Move the mouse cursor to absolute screen coordinates. No click."@,
        ToolKind::XdoHover => "Hover the cursor at (x,y) and wait briefly so the UI reveals any tooltips / hover states. Recommended workflow: `xdo_hover` → `screenshot` (to see what appeared) → `xdo_click`. This avoids blind clicks on regions that change behavior when hovered (menus, custom controls)."@,
        ToolKind::XdoType => "Type a literal string into the focused window."@,
        ToolKind::XdoKey => "Send a keystroke or chord, e.g. `Return`, `ctrl+s`, `alt+Tab`."@,
        ToolKind::LaunchApp => "Launch a desktop application detached from this process. Returns immediately."@,
        ToolKind::ListWindows => "List currently open X11 windows with their titles and IDs (uses wmctrl)."@,
        ToolKind::FocusWindow => "Bring a window to the foreground by title substring (uses wmctrl -a)."@,
    }
}

/// The arguments a tool's schema describes, in order.
pub open spec fn tool_argument_names(k: ToolKind) -> Seq<Seq<char>> {
    match k {
        ToolKind::Screenshot => seq!["region"@, "scale"@],
        ToolKind::XdoClick => seq!["button"@, "x"@, "y"@, "double"@],
        ToolKind::XdoMove => seq!["x"@, "y"@],
        ToolKind::XdoHover => seq!["x"@, "y"@, "dwell_ms"@],
        ToolKind::XdoType => seq!["text"@, "delay_ms"@],
        ToolKind::XdoKey => seq!["key"@],
        ToolKind::LaunchApp => seq!["command"@],
        ToolKind::ListWindows => seq![],
        ToolKind::FocusWindow => seq!["title"@],
    }
}

/// The arguments a tool's schema marks required.
pub open spec fn tool_required(k: ToolKind) -> Seq<Seq<char>> {
    match k {
        ToolKind::XdoMove | ToolKind::XdoHover => seq!["x"@, "y"@],
        ToolKind::XdoType => seq!["text"@],
        ToolKind::XdoKey => seq!["key"@],
        ToolKind::LaunchApp => seq!["command"@],
        ToolKind::FocusWindow => seq!["title"@],
        ToolKind::Screenshot | ToolKind::XdoClick | ToolKind::ListWindows => seq![],
    }
}

/// The schema of the arguments of definition `d`.
pub open spec fn input_schema(d: Json) -> Option<Json> {
    d.spec_get("inputSchema"@)
}

/// The schema of argument `name` of definition `d`.
pub open spec fn property(d: Json, name: Seq<char>) -> Option<Json> {
    match input_schema(d) {
        Some(s) => match s.spec_get("properties"@) {
            Some(p) => p.spec_get(name),
            None => None,
        },
        None => None,
    }
}

/// The member `m` of the schema of argument `name` of definition `d`.
pub open spec fn property_member(d: Json, name: Seq<char>, m: Seq<char>) -> Option<Json> {
    match property(d, name) {
        Some(p) => p.spec_get(m),
        None => None,
    }
}

/// The arguments definition `d` marks required (none when it lists none).
pub open spec fn required_of(d: Json) -> Seq<Seq<char>> {
    match input_schema(d) {
        Some(s) => match strings_of(s.spec_get("required"@)) {
            Some(r) => r,
            None => seq![],
        },
        None => seq![],
    }
}

/// The JSON type definition `d` gives argument `name` (empty when none).
pub open spec fn argument_type(d: Json, name: Seq<char>) -> Seq<char> {
    match str_of(property_member(d, name, "type"@)) {
        Some(t) => t,
        None => seq![],
    }
}

/// Argument `name` of definition `d` has a schema with exactly the member
/// keys `keys` and the JSON type `ty`.
pub open spec fn argument_is(d: Json, name: Seq<char>, keys: Seq<Seq<char>>, ty: Seq<char>) -> bool {
    property(d, name) matches Some(p) && is_object_with(p, keys) && str_of(p.spec_get("type"@))
        == Some(ty)
}

/// The schemas of the arguments of tool `k` in definition `d`: their
/// types, descriptions, defaults and bounds.
pub open spec fn argument_details(d: Json, k: ToolKind) -> bool {
    match k {
        ToolKind::Screenshot => {
            &&& argument_is(d, "region"@, seq!["type"@, "description"@], "string"@)
            &&& str_of(property_member(d, "region"@, "description"@)) == Some(
                "Optional region in `WxH+X+Y` form. Omit to capture the full screen."@,
            )
            &&& argument_is(
                d,
                "scale"@,
                seq!["type"@, "description"@, "default"@, "minimum"@, "maximum"@],
                "number"@,
            )
            &&& str_of(property_member(d, "scale"@, "description"@)) == Some(
                "Downsample factor. Default 0.25. Range 0.1–1.0."@,
            )
            &&& float_text(property_member(d, "scale"@, "default"@)) == Some("0.25"@)
            &&& float_text(property_member(d, "scale"@, "minimum"@)) == Some("0.1"@)
            &&& float_text(property_member(d, "scale"@, "maximum"@)) == Some("1.0"@)
        },
        ToolKind::XdoClick => {
            &&& argument_is(
                d,
                "button"@,
                seq!["type"@, "enum"@, "default"@, "description"@],
                "integer"@,
            )
            &&& integers_of(property_member(d, "button"@, "enum"@)) == Some(seq![1i64, 2i64, 3i64])
            &&& i64_of(property_member(d, "button"@, "default"@)) == Some(1i64)
            &&& str_of(property_member(d, "button"@, "description"@)) == Some(
                "1=left, 2=middle, 3=right"@,
            )
            &&& argument_is(d, "x"@, seq!["type"@], "integer"@)
            &&& argument_is(d, "y"@, seq!["type"@], "integer"@)
            &&& argument_is(d, "double"@, seq!["type"@, "default"@], "boolean"@)
            &&& bool_of(property_member(d, "double"@, "default"@)) == Some(false)
        },
        ToolKind::XdoMove => {
            &&& argument_is(d, "x"@, seq!["type"@], "integer"@)
            &&& argument_is(d, "y"@, seq!["type"@], "integer"@)
        },
        ToolKind::XdoHover => {
            &&& argument_is(d, "x"@, seq!["type"@], "integer"@)
            &&& argument_is(d, "y"@, seq!["type"@], "integer"@)
            &&& argument_is(
                d,
                "dwell_ms"@,
                seq!["type"@, "description"@, "default"@, "minimum"@, "maximum"@],
                "integer"@,
            )
            &&& str_of(property_member(d, "dwell_ms"@, "description"@)) == Some(
                "Milliseconds to dwell at the position so the UI can render the hover state. Default 300."@,
            )
            &&& i64_of(property_member(d, "dwell_ms"@, "default"@)) == Some(300i64)
            &&& i64_of(property_member(d, "dwell_ms"@, "minimum"@)) == Some(0i64)
            &&& i64_of(property_member(d, "dwell_ms"@, "maximum"@)) == Some(5000i64)
        },
        ToolKind::XdoType => {
            &&& argument_is(d, "text"@, seq!["type"@], "string"@)
            &&& argument_is(d, "delay_ms"@, seq!["type"@, "default"@, "description"@], "integer"@)
            &&& i64_of(property_member(d, "delay_ms"@, "default"@)) == Some(12i64)
            &&& str_of(property_member(d, "delay_ms"@, "description"@)) == Some(
                "Per-character delay in ms"@,
            )
        },
        ToolKind::XdoKey => argument_is(d, "key"@, seq!["type"@], "string"@),
        ToolKind::LaunchApp => {
            &&& argument_is(d, "command"@, seq!["type"@, "description"@], "string"@)
            &&& str_of(property_member(d, "command"@, "description"@)) == Some(
                "Argv, e.g. `firefox --new-window https://example.com`"@,
            )
        },
        ToolKind::ListWindows => true,
        ToolKind::FocusWindow => argument_is(d, "title"@, seq!["type"@], "string"@),
    }
}

/// `d` is the definition of tool `k`: its name, its description, and an
/// object schema listing its arguments and the required ones.
pub open spec fn is_tool_definition(d: Json, k: ToolKind) -> bool {
    &&& is_object_with(d, seq!["name"@, "description"@, "inputSchema"@])
    &&& str_of(d.spec_get("name"@)) == Some(k.spec_name())
    &&& str_of(d.spec_get("description"@)) == Some(tool_description(k))
    &&& input_schema(d) matches Some(s) && {
        &&& str_of(s.spec_get("type"@)) == Some("object"@)
        &&& if tool_required(k).len() == 0 {
            is_object_with(s, seq!["type"@, "properties"@])
        } else {
            is_object_with(s, seq!["type"@, "required"@, "properties"@]) && strings_of(
                s.spec_get("required"@),
            ) == Some(tool_required(k))
        }
        &&& s.spec_get("properties"@) matches Some(p) && is_object_with(p, tool_argument_names(k))
    }
    &&& argument_details(d, k)
}

/// `t` lists every tool once, in order, each with its definition.
pub open spec fn lists_all_tools(t: Json) -> bool {
    t matches Json::Array(items) && items@.len() == all_tools().len() && forall|i: int|
        0 <= i < items@.len() ==> is_tool_definition(#[trigger] items@[i], all_tools()[i])
}

proof fn lemma_tool_keys_distinct()
    ensures
        "name"@ != "description"@,
        "name"@ != "inputSchema"@,
        "description"@ != "inputSchema"@,
        "type"@ != "properties"@,
        "type"@ != "required"@,
        "required"@ != "properties"@,
        "type"@ != "description"@,
        "type"@ != "default"@,
        "type"@ != "minimum"@,
        "type"@ != "maximum"@,
        "type"@ != "enum"@,
        "description"@ != "default"@,
        "description"@ != "minimum"@,
        "description"@ != "maximum"@,
        "default"@ != "minimum"@,
        "default"@ != "maximum"@,
        "minimum"@ != "maximum"@,
        "enum"@ != "default"@,
        "enum"@ != "description"@,
        "region"@ != "scale"@,
        "button"@ != "x"@,
        "button"@ != "y"@,
        "button"@ != "double"@,
        "x"@ != "y"@,
        "x"@ != "double"@,
        "y"@ != "double"@,
        "x"@ != "dwell_ms"@,
        "y"@ != "dwell_ms"@,
        "text"@ != "delay_ms"@,
{
    reveal_strlit("name");
    reveal_strlit("description");
    reveal_strlit("inputSchema");
    reveal_strlit("type");
    reveal_strlit("properties");
    reveal_strlit("required");
    reveal_strlit("default");
    reveal_strlit("minimum");
    reveal_strlit("maximum");
    reveal_strlit("enum");
    reveal_strlit("region");
    reveal_strlit("scale");
    reveal_strlit("button");
    reveal_strlit("x");
    reveal_strlit("y");
    reveal_strlit("double");
    reveal_strlit("dwell_ms");
    reveal_strlit("text");
    reveal_strlit("delay_ms");
    assert("name"@[0] != "description"@[0]);
    assert("name"@[0] != "inputSchema"@[0]);
    assert("description"@[0] != "inputSchema"@[0]);
    assert("type"@[0] != "properties"@[0]);
    assert("type"@[0] != "required"@[0]);
    assert("required"@[0] != "properties"@[0]);
    assert("type"@[0] != "description"@[0]);
    assert("type"@[0] != "default"@[0]);
    assert("type"@[0] != "minimum"@[0]);
    assert("type"@[0] != "maximum"@[0]);
    assert("type"@[0] != "enum"@[0]);
    assert("description"@[2] != "default"@[2]);
    assert("description"@[0] != "minimum"@[0]);
    assert("description"@[0] != "maximum"@[0]);
    assert("default"@[0] != "minimum"@[0]);
    assert("default"@[0] != "maximum"@[0]);
    assert("minimum"@[1] != "maximum"@[1]);
    assert("enum"@[0] != "default"@[0]);
    assert("enum"@[0] != "description"@[0]);
    assert("region"@[0] != "scale"@[0]);
    assert("button"@[0] != "x"@[0]);
    assert("button"@[0] != "y"@[0]);
    assert("button"@[0] != "double"@[0]);
    assert("x"@[0] != "y"@[0]);
    assert("x"@[0] != "double"@[0]);
    assert("y"@[0] != "double"@[0]);
    assert("x"@[0] != "dwell_ms"@[0]);
    assert("y"@[0] != "dwell_ms"@[0]);
    assert("text"@[0] != "delay_ms"@[0]);
}

/// `{"type": <ty>}`: the schema of an argument with nothing more to say.
fn plain(ty: &str) -> (r: Json)
    ensures
        is_object_with(r, seq!["type"@]),
        str_of(r.spec_get("type"@)) == Some(ty@),
{
    object1("type", Json::string(ty))
}

/// A JSON array of one string.
fn strings1(a: &str) -> (r: Json)
    ensures
        strings_of(Some(r)) == Some(seq![a@]),
{
    let mut v: Vec<Json> = Vec::new();
    v.push(Json::string(a));
    let r = Json::Array(v);
    assert(v@.map_values(|e: Json| e->Str_0@) =~= seq![a@]);
    r
}

/// A JSON array of two strings.
fn strings2(a: &str, b: &str) -> (r: Json)
    ensures
        strings_of(Some(r)) == Some(seq![a@, b@]),
{
    let mut v: Vec<Json> = Vec::new();
    v.push(Json::string(a));
    v.push(Json::string(b));
    let r = Json::Array(v);
    assert(v@.map_values(|e: Json| e->Str_0@) =~= seq![a@, b@]);
    r
}

fn pos_int(n: u64) -> (r: Json)
    ensures
        r == Json::Number(JsonNumber::PosInt(n)),
{
    Json::Number(JsonNumber::PosInt(n))
}

fn float(text: &str) -> (r: Json)
    ensures
        float_text(Some(r)) == Some(text@),
{
    Json::Number(JsonNumber::Float(String::from_str(text)))
}

/// An object schema with no required arguments.
fn schema(properties: Json) -> (r: Json)
    ensures
        is_object_with(r, seq!["type"@, "properties"@]),
        str_of(r.spec_get("type"@)) == Some("object"@),
        r.spec_get("properties"@) == Some(properties),
{
    proof {
        lemma_tool_keys_distinct();
    }
    object2("type", Json::string("object"), "properties", properties)
}

/// An object schema with the given required arguments.
fn schema_requiring(required: Json, properties: Json) -> (r: Json)
    ensures
        is_object_with(r, seq!["type"@, "required"@, "properties"@]),
        str_of(r.spec_get("type"@)) == Some("object"@),
        r.spec_get("required"@) == Some(required),
        r.spec_get("properties"@) == Some(properties),
{
    proof {
        lemma_tool_keys_distinct();
    }
    object3("type", Json::string("object"), "required", required, "properties", properties)
}

fn tool(kind: ToolKind, description: &str, input_schema: Json) -> (r: Json)
    ensures
        is_object_with(r, seq!["name"@, "description"@, "inputSchema"@]),
        str_of(r.spec_get("name"@)) == Some(kind.spec_name()),
        str_of(r.spec_get("description"@)) == Some(description@),
        r.spec_get("inputSchema"@) == Some(input_schema),
{
    proof {
        lemma_tool_keys_distinct();
    }
    let name = kind.name();
    object3(
        "name",
        Json::Str(name),
        "description",
        Json::string(description),
        "inputSchema",
        input_schema,
    )
}

fn screenshot_tool() -> (r: Json)
    ensures
        is_tool_definition(r, ToolKind::Screenshot),
{
    proof {
        lemma_tool_keys_distinct();
    }
    let region = object2(
        "type",
        Json::string("string"),
        "description",
        Json::string("Optional region in `WxH+X+Y` form. Omit to capture the full screen."),
    );
    let scale = object5(
        "type",
        Json::string("number"),
        "description",
        Json::string("Downsample factor. Default 0.25. Range 0.1–1.0."),
        "default",
        float("0.25"),
        "minimum",
        float("0.1"),
        "maximum",
        float("1.0"),
    );
    tool(
        ToolKind::Screenshot,
        "Capture the current X11 screen and return it as a downsampled PNG. By default the image is scaled to 25% of the original (cuts image tokens ~10×) — still readable for layout and most UI text. Use `scale` to override (0.1–1.0). When you need exact details, pass `scale` 0.5–1.0; prefer `region` to crop instead of upscaling.",
        schema(object2("region", region, "scale", scale)),
    )
}

fn click_tool() -> (r: Json)
    ensures
        is_tool_definition(r, ToolKind::XdoClick),
{
    proof {
        lemma_tool_keys_distinct();
    }
    let mut numbers: Vec<Json> = Vec::new();
    numbers.push(pos_int(1));
    numbers.push(pos_int(2));
    numbers.push(pos_int(3));
    let numbers = Json::Array(numbers);
    assert(integers_of(Some(numbers)) == Some(seq![1i64, 2i64, 3i64])) by {
        let a = numbers->Array_0@;
        assert(a.map_values(|e: Json| i64_of(Some(e))->0) =~= seq![1i64, 2i64, 3i64]);
    }
    let button = object4(
        "type",
        Json::string("integer"),
        "enum",
        numbers,
        "default",
        pos_int(1),
        "description",
        Json::string("1=left, 2=middle, 3=right"),
    );
    let double = object2("type", Json::string("boolean"), "default", Json::Bool(false));
    tool(
        ToolKind::XdoClick,
        "Click at the current cursor location or at given coordinates. Destructive: prefer screenshot first.",
        schema(object4("button", button, "x", plain("integer"), "y", plain("integer"), "double", double)),
    )
}

fn move_tool() -> (r: Json)
    ensures
        is_tool_definition(r, ToolKind::XdoMove),
{
    proof {
        lemma_tool_keys_distinct();
    }
    tool(
        ToolKind::XdoMove,
        "Move the mouse cursor to absolute screen coordinates. No click.",
        schema_requiring(
            strings2("x", "y"),
            object2("x", plain("integer"), "y", plain("integer")),
        ),
    )
}

fn hover_tool() -> (r: Json)
    ensures
        is_tool_definition(r, ToolKind::XdoHover),
{
    proof {
        lemma_tool_keys_distinct();
    }
    let dwell = object5(
        "type",
        Json::string("integer"),
        "description",
        Json::string(
            "Milliseconds to dwell at the position so the UI can render the hover state. Default 300.",
        ),
        "default",
        pos_int(300),
        "minimum",
        pos_int(0),
        "maximum",
        pos_int(5000),
    );
    tool(
        ToolKind::XdoHover,
        "Hover the cursor at (x,y) and wait briefly so the UI reveals any tooltips / hover states. Recommended workflow: `xdo_hover` → `screenshot` (to see what appeared) → `xdo_click`. This avoids blind clicks on regions that change behavior when hovered (menus, custom controls).",
        schema_requiring(
            strings2("x", "y"),
            object3("x", plain("integer"), "y", plain("integer"), "dwell_ms", dwell),
        ),
    )
}

fn type_tool() -> (r: Json)
    ensures
        is_tool_definition(r, ToolKind::XdoType),
{
    proof {
        lemma_tool_keys_distinct();
    }
    let delay = object3(
        "type",
        Json::string("integer"),
        "default",
        pos_int(12),
        "description",
        Json::string("Per-character delay in ms"),
    );
    tool(
        ToolKind::XdoType,
        "Type a literal string into the focused window.",
        schema_requiring(strings1("text"), object2("text", plain("string"), "delay_ms", delay)),
    )
}

fn key_tool() -> (r: Json)
    ensures
        is_tool_definition(r, ToolKind::XdoKey),
{
    tool(
        ToolKind::XdoKey,
        "Send a keystroke or chord, e.g. `Return`, `ctrl+s`, `alt+Tab`.",
        schema_requiring(strings1("key"), object1("key", plain("string"))),
    )
}

fn launch_tool() -> (r: Json)
    ensures
        is_tool_definition(r, ToolKind::LaunchApp),
{
    proof {
        lemma_tool_keys_distinct();
    }
    let command = object2(
        "type",
        Json::string("string"),
        "description",
        Json::string("Argv, e.g. `firefox --new-window https://example.com`"),
    );
    tool(
        ToolKind::LaunchApp,
        "Launch a desktop application detached from this process. Returns immediately.",
        schema_requiring(strings1("command"), object1("command", command)),
    )
}

fn list_windows_tool() -> (r: Json)
    ensures
        is_tool_definition(r, ToolKind::ListWindows),
{
    tool(
        ToolKind::ListWindows,
        "List currently open X11 windows with their titles and IDs (uses wmctrl).",
        schema(empty_object()),
    )
}

fn focus_window_tool() -> (r: Json)
    ensures
        is_tool_definition(r, ToolKind::FocusWindow),
{
    tool(
        ToolKind::FocusWindow,
        "Bring a window to the foreground by title substring (uses wmctrl -a).",
        schema_requiring(strings1("title"), object1("title", plain("string"))),
    )
}

/// The definitions of all tools, in the order the server lists them.
pub fn tool_definitions() -> (r: Json)
    ensures
        lists_all_tools(r),
{
    let mut v: Vec<Json> = Vec::new();
    v.push(screenshot_tool());
    v.push(click_tool());
    v.push(move_tool());
    v.push(hover_tool());
    v.push(type_tool());
    v.push(key_tool());
    v.push(launch_tool());
    v.push(list_windows_tool());
    v.push(focus_window_tool());
    Json::Array(v)
}

} // verus!
