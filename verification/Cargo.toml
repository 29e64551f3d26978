[package]
name = "spectra"
version = "0.1.0"
edition = "2021"
publish = false

[dependencies]
fftw = "=0.8.0"
ringbuf = "=0.5.2"
num-complex = "=0.4.6"
num-traits = "=0.2.19"
bytemuck = "=1.25.2"

[dev-dependencies]
iter_num_tools = "=0.7.1"
