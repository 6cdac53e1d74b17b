pub mod jogo;
pub mod par;
pub mod rede;
pub mod sessao;
pub mod texto;
