[package]
name = "cpu_console"
version = "0.1.0"
edition = "2021"
publish = false

[dependencies]
heapless = "=0.9.3"
ratatui = "=0.30.2"
bootloader_api = "=0.11.17"
linked_list_allocator = "=0.10.6"
pic8259 = "=0.11.0"
raw-cpuid = "=11.6.0"
spin = "=0.12.3"
uart_16550 = "=0.8.1"
x86 = "=0.52.0"
x86_64 = { version = "=0.15.5", default-features = false, features = ["instructions"] }
