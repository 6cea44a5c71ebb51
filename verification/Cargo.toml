[package]
name = "nvim-gtk-shell"
version = "0.1.0"
edition = "2021"
publish = false

# The `dox` features let the GTK bindings compile where GTK itself is not installed.
[dependencies]
atk = { version = "=0.9.0", features = ["dox"] }
cairo-rs = { version = "=0.9.1", features = ["dox"] }
gdk = { version = "=0.13.2", features = ["dox"] }
gdk-sys = { version = "=0.10.0", features = ["dox"] }
glib = { version = "=0.10.3", features = ["dox"] }
gtk = { version = "=0.9.2", features = ["dox"] }
neovim-lib = "=0.5.4"
pango = { version = "=0.9.1", features = ["dox"] }
pangocairo = { version = "=0.10.0", features = ["dox"] }
pangocairo-sys = { version = "=0.11.0", features = ["dox"] }
# rmp 0.8.9 is the last release line that the MessagePack values of neovim-lib compile with.
rmp = "=0.8.9"
