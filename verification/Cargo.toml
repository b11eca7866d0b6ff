[package]
name = "rustos"
version = "1.0.0"
edition = "2021"
publish = false

[dependencies]
x86_64 = { version = "=0.14.13", default-features = false, features = ["instructions"] }
pc-keyboard = "=0.7.0"
pic8259 = { version = "=0.10.4", default-features = false }
bootloader = { version = "=0.9.35", features = ["map_physical_memory"] }
linked_list_allocator = { version = "=0.9.1", default-features = false, features = ["use_spin"] }
spin = "=0.5.2"
volatile = "=0.2.7"
lazy_static = { version = "=1.5.1", features = ["spin_no_std"] }
