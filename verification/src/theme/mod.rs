pub mod state_layer;
