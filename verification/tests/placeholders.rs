#[test]
fn gles3_context() {}

#[test]
fn gl46_context() {}

#[test]
fn perspective() {}

#[test]
fn glslang() {}

#[test]
fn tools() {}

#[test]
fn init() {}
