[package]
name = "uni_gl"
version = "0.1.0"
edition = "2021"
publish = false

[dependencies]
gl = "0.14"
js-sys = "0.3"
wasm-bindgen = "0.2"
web-sys = { version = "0.3", features = [
    "console",
    "HtmlCanvasElement",
    "WebGl2RenderingContext",
    "WebGlRenderingContext",
    "WebGlBuffer",
    "WebGlShader",
    "WebGlProgram",
    "WebGlTexture",
    "WebGlFramebuffer",
    "WebGlVertexArrayObject",
    "WebGlUniformLocation",
] }
