[package]
name = "wav_player"
version = "0.1.0"
edition = "2021"
publish = false

[dependencies]
ctrlc = "3"
winapi = { version = "0.3", features = ["audioclient", "audiosessiontypes", "combaseapi", "mmdeviceapi", "mmreg", "objbase", "unknwnbase", "winerror"] }
