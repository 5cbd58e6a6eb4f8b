use vstd::prelude::*;
use wasm_bindgen::{JsCast, JsValue};
use web_sys::js_sys::Object;
use web_sys::{CanvasRenderingContext2d, Document, Element, HtmlCanvasElement, Window};

verus! {

#[verifier::external_type_specification]
#[verifier::external_body]
pub struct ExWindow(Window);

#[verifier::external_type_specification]
#[verifier::external_body]
pub struct ExDocument(Document);

#[verifier::external_type_specification]
#[verifier::external_body]
pub struct ExElement(Element);

#[verifier::external_type_specification]
#[verifier::external_body]
pub struct ExHtmlCanvasElement(HtmlCanvasElement);

#[verifier::external_type_specification]
#[verifier::external_body]
pub struct ExCanvasRenderingContext2d(CanvasRenderingContext2d);

#[verifier::external_type_specification]
#[verifier::external_body]
#[verifier::reject_recursive_types(T)]
pub struct ExObject<T>(Object<T>);

#[verifier::external_type_specification]
#[verifier::external_body]
pub struct ExJsValue(JsValue);

/// Relies on web_sys::window: the global window, if the host has one.
#[verifier::external_body]
fn global_window() -> (r: Option<Window>) {
    web_sys::window()
}

/// Relies on web_sys::Window::document: the window's document, if any.
#[verifier::external_body]
fn window_document(window: &Window) -> (r: Option<Document>) {
    window.document()
}

/// Relies on web_sys::Document::get_element_by_id: the element with that
/// id, if any.
#[verifier::external_body]
fn element_by_id(document: &Document, id: &str) -> (r: Option<Element>) {
    document.get_element_by_id(id)
}

/// Relies on wasm_bindgen::JsCast::dyn_into: the element as a canvas, or
/// the element given back when it is none.
#[verifier::external_body]
fn element_as_canvas(element: Element) -> (r: Result<HtmlCanvasElement, Element>) {
    element.dyn_into::<HtmlCanvasElement>()
}

/// Relies on web_sys::HtmlCanvasElement::get_context: the context object
/// of that kind, none when the canvas has none, or the thrown error.
#[verifier::external_body]
fn canvas_context(canvas: &HtmlCanvasElement, kind: &str) -> (r: Result<Option<Object>, JsValue>) {
    canvas.get_context(kind)
}

/// Relies on wasm_bindgen::JsCast::dyn_into: the object as a 2D context,
/// or the object given back when it is none.
#[verifier::external_body]
fn object_as_context_2d(object: Object) -> (r: Result<CanvasRenderingContext2d, Object>) {
    object.dyn_into::<CanvasRenderingContext2d>()
}

/// Which step of finding the drawing surface failed.
#[derive(Clone, Copy, Debug, PartialEq, Eq, Structural)]
pub enum NotFoundError {
    NoWindow,
    NoDocument,
    NoCanvasElement,
    NotACanvas,
    ContextRefused,
    NoContext2d,
    NotAContext2d,
}

/// Errors that come from finding the document.
pub open spec fn document_error(e: NotFoundError) -> bool {
    e == NotFoundError::NoWindow || e == NotFoundError::NoDocument
}

/// Errors that come from finding the canvas element.
pub open spec fn canvas_error(e: NotFoundError) -> bool {
    document_error(e) || e == NotFoundError::NoCanvasElement || e == NotFoundError::NotACanvas
}

/// The id of the element that is the drawing surface.
pub fn canvas_element_id() -> (r: &'static str)
    ensures
        r@ == "canvas"@,
{
    "canvas"
}

/// The kind of drawing context asked of the canvas.
pub fn context_kind() -> (r: &'static str)
    ensures
        r@ == "2d"@,
{
    "2d"
}

/// The host's global window.
pub fn window() -> (r: Result<Window, NotFoundError>)
    ensures
        r matches Err(e) ==> e == NotFoundError::NoWindow,
{
    match global_window() {
        Some(w) => Ok(w),
        None => Err(NotFoundError::NoWindow),
    }
}

/// The document of the host's window.
pub fn document() -> (r: Result<Document, NotFoundError>)
    ensures
        r matches Err(e) ==> document_error(e),
{
    let w = window()?;
    match window_document(&w) {
        Some(d) => Ok(d),
        None => Err(NotFoundError::NoDocument),
    }
}

/// The canvas element whose id is `canvas_element_id()`. Each error names
/// the first lookup that the host answered with nothing usable.
pub fn canvas() -> (r: Result<HtmlCanvasElement, NotFoundError>)
    ensures
        r matches Err(e) ==> canvas_error(e),
{
    let d = document()?;
    match element_by_id(&d, canvas_element_id()) {
        Some(element) => match element_as_canvas(element) {
            Ok(c) => Ok(c),
            Err(_) => Err(NotFoundError::NotACanvas),
        },
        None => Err(NotFoundError::NoCanvasElement),
    }
}

/// Errors that come from asking a found canvas for its context.
pub open spec fn context_error(e: NotFoundError) -> bool {
    e == NotFoundError::ContextRefused || e == NotFoundError::NoContext2d || e
        == NotFoundError::NotAContext2d
}

/// The drawing context of kind `context_kind()` of `canvas`. Each error
/// names the step that the host answered with nothing usable.
pub fn context_of(canvas: &HtmlCanvasElement) -> (r: Result<CanvasRenderingContext2d, NotFoundError>)
    ensures
        r matches Err(e) ==> context_error(e),
{
    match canvas_context(canvas, context_kind()) {
        Ok(Some(object)) => match object_as_context_2d(object) {
            Ok(ctx) => Ok(ctx),
            Err(_) => Err(NotFoundError::NotAContext2d),
        },
        Ok(None) => Err(NotFoundError::NoContext2d),
        Err(_) => Err(NotFoundError::ContextRefused),
    }
}

/// The drawing context of kind `context_kind()` of the canvas that
/// `canvas()` finds. An error either comes from finding the canvas or
/// from asking it for its context.
pub fn context() -> (r: Result<CanvasRenderingContext2d, NotFoundError>)
    ensures
        r matches Err(e) ==> canvas_error(e) || context_error(e),
{
    let c = canvas()?;
    context_of(&c)
}

} // verus!
