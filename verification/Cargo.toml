[package]
name = "drag_drop_bridge"
version = "0.1.0"
edition = "2021"
publish = false

[dependencies]
once_cell = "=1.21.4"
objc2 = { version = "=0.5.3", features = ["gnustep-1-7"] }
objc2-app-kit = { version = "=0.2.2", features = ["NSPasteboard", "gnustep-1-7"] }
objc2-foundation = { version = "=0.2.2", features = ["NSArray", "NSString", "NSGeometry", "gnustep-1-7"] }
