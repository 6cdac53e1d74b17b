# Jogo da velha P2P, verificado

Biblioteca em Verus com as regras e as decisões de um jogo da velha para dois
jogadores em rede local, e o programa (em `app/`) que a usa com libp2p e egui.

- `src/jogo.rs`: tabuleiro, jogadas, vitória e empate; o estado coerente
  (`bem_formado`) e as leis das jogadas.
- `src/sessao.rs`: o estado da interface (símbolo do jogador, avisos, placar) e o
  efeito de cada evento da rede e de cada clique; as leis de réplica entre os dois
  jogadores e do placar.
- `src/rede.rs`: a reação a cada evento do swarm (descoberta mDNS, inscrição no
  tópico, mensagens, conexões), devolvida como ações a executar.
- `src/par.rs`: a identidade de um par (bytes de `PeerId`) e as chamadas a
  `libp2p` que a comparam e a mostram.
- `src/texto.rs`: números em notação decimal.
- `app/`: o laço de rede (tokio + libp2p), a serialização JSON das mensagens e a
  interface gráfica.
