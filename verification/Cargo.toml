[package]
name = "psionic"
version = "0.1.0"
edition = "2021"
publish = false

[dependencies]
bytemuck = "1"
glam = "*"
glow = "0.13"
winit = "0.29"
raw-window-handle = "0.6"
stb_image = "0.3"
uuid = { version = "1", features = ["v4"] }
windows-sys = { version = "0.52", features = ["Win32_Foundation", "Win32_Graphics_Gdi", "Win32_Graphics_OpenGL", "Win32_System_LibraryLoader"] }
